use ipipe::pipe::{attach_step, classify_target, open_step, OpenStep, TargetState};
use ipipe::{OnCleanup, Pipe};

fn cleanup(path: &str) {
    let _ = nix::unistd::unlink(path);
}

#[test]
fn test_name() {
    let pipe = Pipe::with_name("test_name").unwrap();
    assert_eq!(pipe.name().unwrap(), "test_name");
}

#[test]
fn test_pipe() {
    let mut pipe = Pipe::create().unwrap();
    let mut writer = pipe.clone();
    let mut written = 0;
    for i in 1..=10 {
        written += writer.write_string(format!("{}\n", i).as_str()).unwrap();
    }
    written += writer.write_byte(b'X').unwrap();
    assert_eq!(written, 22);
    let result = String::from_utf8(pipe.read_until(b'X', 4096).unwrap()).unwrap();
    assert_eq!("1\n2\n3\n4\n5\n6\n7\n8\n9\n10\n", result);
    for i in 1..=3 {
        writer.write_string(format!("{}\n", i).as_str()).unwrap();
    }
    writer.write_byte(b'X').unwrap();
    let result = String::from_utf8(pipe.read_until(b'X', 4096).unwrap()).unwrap();
    assert_eq!("1\n2\n3\n", result);
    let path = pipe.path().to_string();
    pipe.close().unwrap();
    cleanup(path.as_str());
}

#[test]
fn write_then_read_in_order() {
    cleanup("/tmp/ipipe_order_test");
    let mut pipe = Pipe::open("/tmp/ipipe_order_test", OnCleanup::Delete).unwrap();
    let mut data: Vec<u8> = Vec::new();
    let mut i: u8 = 0;
    while i < 100 {
        data.push(i);
        i += 1;
    }
    let n = pipe.write_bytes(&data).unwrap();
    assert_eq!(n, 100);
    let got = pipe.read_bytes(100).unwrap();
    assert_eq!(got, data);
    pipe.close().unwrap();
}

#[test]
fn scenario_predicate_bounded_read() {
    cleanup("/tmp/ipipe_scenario_a");
    let mut pipe = Pipe::open("/tmp/ipipe_scenario_a", OnCleanup::Delete).unwrap();
    pipe.write_string("1\n2\n3\n").unwrap();
    pipe.write_byte(0x18).unwrap();
    let got = pipe.read_until(0x18, 4096).unwrap();
    assert_eq!(String::from_utf8(got).unwrap(), "1\n2\n3\n");
    pipe.close().unwrap();
}

#[test]
fn same_name_binds_same_channel() {
    cleanup("/tmp/ipipe_round_trip");
    let mut a = Pipe::with_name("ipipe_round_trip").unwrap();
    let mut b = Pipe::with_name("ipipe_round_trip").unwrap();
    assert_eq!(a.path(), b.path());
    a.write_string("ping").unwrap();
    let got = b.read_bytes(4).unwrap();
    assert_eq!(got.as_slice(), b"ping");
    a.close().unwrap();
    b.close().unwrap();
    cleanup("/tmp/ipipe_round_trip");
}

#[test]
fn close_is_idempotent() {
    let mut pipe = Pipe::with_name("ipipe_close_twice").unwrap();
    assert!(pipe.close().is_ok());
    assert!(pipe.close().is_ok());
}

#[test]
fn closed_pipe_rejects_io() {
    let mut pipe = Pipe::with_name("ipipe_closed_io").unwrap();
    pipe.close().unwrap();
    assert!(matches!(pipe.write_string("x"), Err(ipipe::Error::Ipipe(_))));
    assert!(matches!(pipe.read_bytes(1), Err(ipipe::Error::Ipipe(_))));
}

#[test]
fn slave_drop_leaves_owner_working() {
    cleanup("/tmp/ipipe_slave_iso");
    let mut owner = Pipe::open("/tmp/ipipe_slave_iso", OnCleanup::Delete).unwrap();
    {
        let slave = owner.clone();
        drop(slave);
    }
    owner.write_string("still alive").unwrap();
    let got = owner.read_bytes(11).unwrap();
    assert_eq!(got.as_slice(), b"still alive");
    let other = Pipe::open("/tmp/ipipe_slave_iso", OnCleanup::NoDelete).unwrap();
    drop(other);
    owner.close().unwrap();
}

#[test]
fn slave_shares_channel() {
    cleanup("/tmp/ipipe_slave_share");
    let mut owner = Pipe::open("/tmp/ipipe_slave_share", OnCleanup::Delete).unwrap();
    let mut slave = owner.clone();
    slave.write_string("from slave\n").unwrap();
    let got = owner.read_bytes(11).unwrap();
    assert_eq!(got.as_slice(), b"from slave\n");
    owner.close().unwrap();
}

#[test]
fn duplex_alternation() {
    cleanup("/tmp/ipipe_alternation");
    let mut first = Pipe::open("/tmp/ipipe_alternation", OnCleanup::Delete).unwrap();
    let mut second = first.clone();
    first.write_string("test1\n").unwrap();
    let got = second.read_until(b'\n', 100).unwrap();
    assert_eq!(got.as_slice(), b"test1");
    second.write_string("test2\n").unwrap();
    let got = first.read_until(b'\n', 100).unwrap();
    assert_eq!(got.as_slice(), b"test2");
    first.close().unwrap();
}

#[test]
fn open_steps_follow_the_probe() {
    assert_eq!(classify_target(Ok(0o010644)), TargetState::Fifo);
    assert_eq!(classify_target(Ok(0o100644)), TargetState::NotFifo);
    assert_eq!(classify_target(Err(2)), TargetState::Missing);
    assert_eq!(classify_target(Err(13)), TargetState::Inaccessible(13));
    assert_eq!(open_step(TargetState::Fifo), OpenStep::UseExisting);
    assert_eq!(open_step(TargetState::Missing), OpenStep::CreateFirst);
    assert_eq!(open_step(TargetState::NotFifo), OpenStep::RejectPath);
    assert_eq!(open_step(TargetState::Inaccessible(13)), OpenStep::Surface(13));
    assert_eq!(attach_step(TargetState::Fifo), OpenStep::UseExisting);
    assert_eq!(attach_step(TargetState::Missing), OpenStep::Surface(2));
    assert_eq!(attach_step(TargetState::NotFifo), OpenStep::RejectPath);
    assert_eq!(attach_step(TargetState::Inaccessible(13)), OpenStep::Surface(13));
}

#[test]
fn open_rejects_regular_file() {
    let path = "/tmp/ipipe_regular_file";
    let _ = nix::unistd::unlink(path);
    let fd = nix::fcntl::open(
        path,
        nix::fcntl::OFlag::O_CREAT | nix::fcntl::OFlag::O_WRONLY,
        nix::sys::stat::Mode::from_bits_truncate(0o644),
    )
    .unwrap();
    nix::unistd::close(fd).unwrap();
    let r = Pipe::open(path, OnCleanup::NoDelete);
    assert!(matches!(r, Err(ipipe::Error::InvalidPath)));
    let _ = nix::unistd::unlink(path);
}

#[test]
fn open_rejects_parentless_path() {
    assert!(matches!(
        Pipe::open("", OnCleanup::NoDelete),
        Err(ipipe::Error::InvalidPath)
    ));
    assert!(matches!(
        Pipe::open("/", OnCleanup::NoDelete),
        Err(ipipe::Error::InvalidPath)
    ));
}

#[test]
fn read_string_rejects_invalid_utf8() {
    cleanup("/tmp/ipipe_bad_utf8");
    let mut pipe = Pipe::open("/tmp/ipipe_bad_utf8", OnCleanup::Delete).unwrap();
    pipe.write_bytes(&[0xff, 0xfe, 0xfd]).unwrap();
    let r = pipe.read_string(3);
    assert!(matches!(r, Err(ipipe::Error::InvalidUtf8)));
    pipe.close().unwrap();
}

#[test]
fn read_string_round_trips_utf8() {
    cleanup("/tmp/ipipe_good_utf8");
    let mut pipe = Pipe::open("/tmp/ipipe_good_utf8", OnCleanup::Delete).unwrap();
    pipe.write_string("snake: \u{1f40d}").unwrap();
    let s = pipe.read_string(64).unwrap();
    assert_eq!(s, "snake: \u{1f40d}");
    pipe.close().unwrap();
}

#[test]
fn create_uses_random_name() {
    let mut pipe = Pipe::create().unwrap();
    let path = pipe.path().to_string();
    let pid = nix::unistd::getpid().as_raw() as u32;
    assert!(path.starts_with(format!("/tmp/pipe_{}_", pid).as_str()));
    let name = pipe.name().unwrap();
    assert_eq!(name.len(), format!("pipe_{}_", pid).len() + 10);
    assert!(name.chars().all(|c| c.is_ascii_alphanumeric() || c == '_'));
    pipe.write_string("via create").unwrap();
    let got = pipe.read_bytes(10).unwrap();
    assert_eq!(got.as_slice(), b"via create");
    pipe.close().unwrap();
    cleanup(path.as_str());
}

#[test]
fn os_errors_carry_code_and_description() {
    let mut pipe = Pipe::with_name("ipipe_errno_desc").unwrap();
    pipe.close().unwrap();
    match pipe.flush_pipe() {
        Err(ipipe::Error::Native(_, code, desc)) => {
            assert_eq!(code, 9);
            assert_eq!(desc, "Bad file number");
        }
        other => panic!("expected a native error, got {:?}", other),
    }
}

#[test]
fn flush_on_a_fifo_reports_the_os_verdict() {
    cleanup("/tmp/ipipe_flush");
    let mut pipe = Pipe::open("/tmp/ipipe_flush", OnCleanup::Delete).unwrap();
    pipe.write_string("queued").unwrap();
    assert!(matches!(
        pipe.flush(),
        Err(ipipe::Error::Native(_, _, _))
    ));
    let got = pipe.read_bytes(6).unwrap();
    assert_eq!(got.as_slice(), b"queued");
    pipe.close().unwrap();
}

#[test]
fn delete_policy_removes_backing_path() {
    let path = "/tmp/ipipe_delete_policy";
    cleanup(path);
    let mut pipe = Pipe::open(path, OnCleanup::Delete).unwrap();
    assert!(nix::sys::stat::stat(path).is_ok());
    pipe.close().unwrap();
    assert!(nix::sys::stat::stat(path).is_err());
}
