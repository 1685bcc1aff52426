use ipipe::handle::{Handle, HandleType};

#[test]
fn observing_handle_reports_absent_after_teardown() {
    let (r, w) = nix::unistd::pipe().unwrap();
    let mut owner = Handle::acquire_owning(r);
    let observer = owner.clone();
    assert_eq!(owner.raw(), Some(r));
    assert_eq!(observer.raw(), Some(r));
    owner.teardown().unwrap();
    assert_eq!(owner.raw(), None);
    assert_eq!(observer.raw(), None);
    let _ = nix::unistd::close(w);
}

#[test]
fn teardown_is_idempotent() {
    let (r, w) = nix::unistd::pipe().unwrap();
    let mut owner = Handle::acquire_owning(r);
    assert!(owner.teardown().is_ok());
    assert!(owner.teardown().is_ok());
    let _ = nix::unistd::close(w);
}

#[test]
fn roles_are_established_once() {
    let (r, w) = nix::unistd::pipe().unwrap();
    let mut h = Handle::acquire_owning(r);
    assert_eq!(h.handle_type(), HandleType::Unknown);
    h.set_type(HandleType::Read);
    assert_eq!(h.handle_type(), HandleType::Read);
    h.set_type(HandleType::Write);
    assert_eq!(h.handle_type(), HandleType::Read);
    h.teardown().unwrap();
    let _ = nix::unistd::close(w);
}

#[test]
fn clones_observe_but_never_own() {
    let (r, w) = nix::unistd::pipe().unwrap();
    let mut owner = Handle::acquire_owning(r);
    assert!(owner.is_owner());
    let observer = owner.clone();
    assert!(!observer.is_owner());
    let downgraded = owner.downgrade();
    assert!(!downgraded.is_owner());
    owner.teardown().unwrap();
    let _ = nix::unistd::close(w);
}

#[test]
fn same_target_tracks_liveness_and_role() {
    let (r, w) = nix::unistd::pipe().unwrap();
    let mut owner = Handle::acquire_owning(r);
    let observer = owner.clone();
    assert!(owner.same_target(&observer));
    let mut other = Handle::acquire_owning(w);
    assert!(!owner.same_target(&other));
    owner.teardown().unwrap();
    assert!(!owner.same_target(&observer));
    other.teardown().unwrap();
}
