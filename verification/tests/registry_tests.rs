use ipipe::{close, close_all, get, init, print, Registry};

#[test]
fn registry_print_reaches_reader() {
    let _ = nix::unistd::unlink("/tmp/ipipe_reg_print");
    let mut reg = Registry::new();
    let mut reader = init(&mut reg, "ipipe_reg_print").unwrap();
    print(&reg, "ipipe_reg_print", "This came through the pipe.\u{18}").unwrap();
    let got = reader.read_until(0x18, 4096).unwrap();
    assert_eq!(String::from_utf8(got).unwrap(), "This came through the pipe.");
    close(&mut reg, "ipipe_reg_print");
    assert!(get(&reg, "ipipe_reg_print").is_none());
}

#[test]
fn registry_miss_is_not_initialized() {
    let reg = Registry::new();
    assert!(get(&reg, "ipipe_reg_never").is_none());
    assert!(matches!(
        print(&reg, "ipipe_reg_never", "x"),
        Err(ipipe::Error::Ipipe(_))
    ));
}

#[test]
fn registry_close_all_empties() {
    let _ = nix::unistd::unlink("/tmp/ipipe_reg_a");
    let _ = nix::unistd::unlink("/tmp/ipipe_reg_b");
    let mut reg = Registry::new();
    init(&mut reg, "ipipe_reg_a").unwrap();
    init(&mut reg, "ipipe_reg_b").unwrap();
    assert!(get(&reg, "ipipe_reg_a").is_some());
    assert!(get(&reg, "ipipe_reg_b").is_some());
    close_all(&mut reg);
    assert!(get(&reg, "ipipe_reg_a").is_none());
    assert!(get(&reg, "ipipe_reg_b").is_none());
}

#[test]
fn registry_hands_out_shared_slaves() {
    let _ = nix::unistd::unlink("/tmp/ipipe_reg_slaves");
    let mut reg = Registry::new();
    init(&mut reg, "ipipe_reg_slaves").unwrap();
    let mut writer = get(&reg, "ipipe_reg_slaves").unwrap();
    let mut reader = get(&reg, "ipipe_reg_slaves").unwrap();
    writer.write_string("hello").unwrap();
    let got = reader.read_bytes(5).unwrap();
    assert_eq!(got.as_slice(), b"hello");
    close_all(&mut reg);
}
