use ipipe::paths::{name_part, u32_to_string, unix_path_for_name, win_path_for_name};

#[test]
fn unix_paths_carry_the_fixed_prefix() {
    assert_eq!(unix_path_for_name("abc"), "/tmp/abc");
    assert_eq!(unix_path_for_name(""), "/tmp/");
}

#[test]
fn win_paths_carry_the_pipe_namespace() {
    assert_eq!(win_path_for_name("abc"), "\\\\.\\pipe\\abc");
}

#[test]
fn name_part_takes_what_follows_the_last_separator() {
    assert_eq!(name_part("/tmp/abc", '/'), "abc");
    assert_eq!(name_part("abc", '/'), "abc");
    assert_eq!(name_part("/tmp/", '/'), "");
    assert_eq!(name_part("", '/'), "");
    assert_eq!(name_part("\\\\.\\pipe\\abc", '\\'), "abc");
    assert_eq!(name_part("/a/b/c", '/'), "c");
}

#[test]
fn decimal_rendering_is_exact() {
    assert_eq!(u32_to_string(0), "0");
    assert_eq!(u32_to_string(7), "7");
    assert_eq!(u32_to_string(10), "10");
    assert_eq!(u32_to_string(1200), "1200");
    assert_eq!(u32_to_string(4294967295), "4294967295");
}

#[test]
fn error_messages_render() {
    assert_eq!(ipipe::Error::InvalidPath.message(), "Invalid path");
    assert_eq!(ipipe::Error::InvalidUtf8.message(), "Invalid Utf8");
    let native = ipipe::Error::Native("context", 42, String::from("details"));
    assert_eq!(native.message(), "context: 42 - details");
    let misc = ipipe::Error::Misc(String::from("something else"));
    assert_eq!(misc.message(), "something else");
    let ipipe_err = ipipe::Error::Ipipe("Pipe not initialized");
    assert_eq!(ipipe_err.message(), "Pipe not initialized");
}
