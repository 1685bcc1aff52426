//! Trusted bindings to the operating system and to the random-name source.
//!
//! Every function here is `external_body`: its contract is believed, not
//! verified.  Each doc comment names the outside function relied on and what
//! is assumed of it.  Results that depend on the environment (the state of
//! the filesystem, the peer of a pipe, the random generator) are constrained
//! only by what holds of every outcome.

use vstd::prelude::*;
use vstd::utf8::{encode_utf8, valid_utf8};
use rand::Rng;
use crate::FlushKind;
use crate::paths::is_alnum_char;

verus! {

/// The description that the C library attaches to an errno value: a fixed
/// function of the value alone.
pub uninterp spec fn errno_text(code: int) -> Seq<char>;

/// Relies on nix::errno::Errno::desc: a fixed, process-independent
/// description for each errno value.
#[verifier::external_body]
pub(crate) fn errno_desc(code: i32) -> (r: &'static str)
    ensures
        r@ == errno_text(code as int),
{
    nix::errno::Errno::from_i32(code).desc()
}

/// Relies on nix::sys::stat::stat: returns the target's `st_mode` bits on
/// success and the (positive) errno value on failure.
#[verifier::external_body]
pub(crate) fn sys_stat_mode(path: &str) -> (r: Result<u32, i32>)
    ensures
        r matches Err(c) ==> 0 < c,
{
    match nix::sys::stat::stat(path) {
        Ok(st) => Ok(st.st_mode as u32),
        Err(e) => Err(e as i32),
    }
}

/// Relies on nix::unistd::mkfifo: creates a FIFO special file at `path` with
/// the given permission bits, or fails with the (positive) errno value.
#[verifier::external_body]
pub(crate) fn sys_mkfifo(path: &str, mode_bits: u32) -> (r: Result<(), i32>)
    ensures
        r matches Err(c) ==> 0 < c,
{
    match nix::unistd::mkfifo(path, nix::sys::stat::Mode::from_bits_truncate(mode_bits)) {
        Ok(()) => Ok(()),
        Err(e) => Err(e as i32),
    }
}

/// Relies on nix::fcntl::open: opens `path` with the given open-flag bits and
/// returns a fresh nonnegative file descriptor, or the (positive) errno.
#[verifier::external_body]
pub(crate) fn sys_open(path: &str, flag_bits: i32) -> (r: Result<i32, i32>)
    ensures
        r matches Ok(fd) ==> 0 <= fd,
        r matches Err(c) ==> 0 < c,
{
    match nix::fcntl::open(
        path,
        nix::fcntl::OFlag::from_bits_truncate(flag_bits),
        nix::sys::stat::Mode::empty(),
    ) {
        Ok(fd) => Ok(fd),
        Err(e) => Err(e as i32),
    }
}

/// Relies on nix::unistd::read: blocks until at least one byte is available
/// or the stream ends, fills at most `buf.len()` bytes at the front of `buf`,
/// and returns how many; the rest of the buffer is untouched.
#[verifier::external_body]
pub(crate) fn sys_read(fd: i32, buf: &mut Vec<u8>) -> (r: Result<usize, i32>)
    ensures
        final(buf)@.len() == old(buf)@.len(),
        r matches Ok(n) ==> n <= old(buf)@.len() && (forall|i: int|
            n <= i < old(buf)@.len() ==> final(buf)@[i] == old(buf)@[i]),
        r matches Err(c) ==> 0 < c,
{
    match nix::unistd::read(fd, buf.as_mut_slice()) {
        Ok(n) => Ok(n),
        Err(e) => Err(e as i32),
    }
}

/// Relies on nix::unistd::write: hands the bytes of `buf` to the kernel in
/// order and returns how many (never more than `buf.len()`) were accepted.
#[verifier::external_body]
pub(crate) fn sys_write(fd: i32, buf: &[u8]) -> (r: Result<usize, i32>)
    ensures
        r matches Ok(n) ==> n <= buf@.len(),
        r matches Err(c) ==> 0 < c,
{
    match nix::unistd::write(fd, buf) {
        Ok(n) => Ok(n),
        Err(e) => Err(e as i32),
    }
}

/// Relies on nix::unistd::close: releases the descriptor, or fails with the
/// (positive) errno value.
#[verifier::external_body]
pub(crate) fn sys_close(fd: i32) -> (r: Result<(), i32>)
    ensures
        r matches Err(c) ==> 0 < c,
{
    match nix::unistd::close(fd) {
        Ok(()) => Ok(()),
        Err(e) => Err(e as i32),
    }
}

/// Relies on nix::unistd::unlink: removes the filesystem entry at `path`, or
/// fails with the (positive) errno value.  Never unwinds and opens no
/// invariants, so that a destructor may call it: nix reports every failure
/// through its result.
#[verifier::external_body]
pub(crate) fn sys_unlink(path: &String) -> (r: Result<(), i32>)
    ensures
        r matches Err(c) ==> 0 < c,
    opens_invariants none
    no_unwind
{
    match nix::unistd::unlink(path.as_str()) {
        Ok(()) => Ok(()),
        Err(e) => Err(e as i32),
    }
}

/// Relies on nix::sys::termios::tcflush: discards the queued data of the
/// selected direction on the descriptor, or fails with the (positive) errno.
#[verifier::external_body]
pub(crate) fn sys_tcflush(fd: i32, kind: FlushKind) -> (r: Result<(), i32>)
    ensures
        r matches Err(c) ==> 0 < c,
{
    let arg = match kind {
        FlushKind::Output => nix::sys::termios::FlushArg::TCOFLUSH,
        FlushKind::Both => nix::sys::termios::FlushArg::TCIOFLUSH,
    };
    match nix::sys::termios::tcflush(fd, arg) {
        Ok(()) => Ok(()),
        Err(e) => Err(e as i32),
    }
}

/// Relies on nix::unistd::getpid: the identifier of the calling process.
#[verifier::external_body]
pub(crate) fn sys_getpid() -> (r: u32)
{
    nix::unistd::getpid().as_raw() as u32
}

/// Relies on rand's thread-local generator sampling the Alphanumeric
/// distribution: every drawn character is ASCII alphanumeric, and exactly
/// `len` are drawn.  Nothing more is assumed of a random result.
#[verifier::external_body]
pub(crate) fn random_alnum(len: usize) -> (r: String)
    ensures
        r@.len() == len,
        forall|i: int| 0 <= i < r@.len() ==> is_alnum_char(#[trigger] r@[i]),
{
    rand::thread_rng()
        .sample_iter(&rand::distributions::Alphanumeric)
        .take(len)
        .map(char::from)
        .collect()
}

/// Relies on alloc::string::String::from_utf8: succeeds exactly on valid
/// UTF-8 input and preserves the bytes.
#[verifier::external_body]
pub(crate) fn bytes_to_string(v: Vec<u8>) -> (r: Option<String>)
    ensures
        r is Some <==> valid_utf8(v@),
        r matches Some(s) ==> encode_utf8(s@) == v@,
{
    match String::from_utf8(v) {
        Ok(s) => Some(s),
        Err(_) => None,
    }
}

} // verus!
