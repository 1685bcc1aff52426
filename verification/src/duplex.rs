//! Decision logic of the connection-oriented (Windows-style) transport.
//!
//! A Win32 named pipe is directional and connection-oriented: the read side
//! acts as a server that must create and accept a fresh listener instance
//! for every client, the write side as a client connecting to a listener.
//! Emulating one persistent duplex byte stream over that transport is a pair
//! of independent state machines, one per direction, each advancing only on
//! first use of its direction.
//!
//! The platform calls themselves cannot be made from here; what is verified
//! is every decision those state machines take: how a raw result of one OS
//! attempt is classified, when a direction reconnects transparently, when a
//! benign disconnect is reported as end-of-stream, and in which order a
//! handle is torn down.  Platform glue drives the loop: it performs the
//! returned action and hands the next raw result back.

use vstd::prelude::*;

verus! {

/// Win32 error for a peer that went away mid-stream.
pub const ERROR_BROKEN_PIPE: u32 = 109;

/// Win32 error for a write through a client handle whose server side is
/// gone.
pub const ERROR_NO_DATA: u32 = 232;

/// Win32 error for an operation on a pipe instance with no connected peer.
pub const ERROR_PIPE_NOT_CONNECTED: u32 = 233;

/// The role a connection-oriented handle was established with: the read side
/// listens as a server, the write side connects as a client.
#[derive(Clone, Copy, Debug, PartialEq, Eq, Structural)]
pub enum Role {
    Server,
    Client,
}

/// Whether teardown must disconnect the pipe instance before closing it:
/// only a server-role (listener) handle; a client handle closes directly.
pub open spec fn spec_needs_disconnect(role: Role) -> bool {
    role is Server
}

/// Runtime form of [`spec_needs_disconnect`].
pub fn needs_disconnect(role: Role) -> (r: bool)
    ensures
        r == spec_needs_disconnect(role),
{
    match role {
        Role::Server => true,
        Role::Client => false,
    }
}

/// How one raw read attempt on a single handle is reported to the duplex
/// layer: a not-connected error is benign (no peer is attached) and maps to
/// a zero-byte result, everything else passes through.
pub open spec fn spec_handle_read_result(res: Result<usize, u32>) -> Result<usize, u32> {
    match res {
        Ok(n) => Ok(n),
        Err(code) => if code == ERROR_PIPE_NOT_CONNECTED {
            Ok(0)
        } else {
            Err(code)
        },
    }
}

/// Runtime form of [`spec_handle_read_result`].
pub fn handle_read_result(res: Result<usize, u32>) -> (r: Result<usize, u32>)
    ensures
        r == spec_handle_read_result(res),
{
    match res {
        Ok(n) => Ok(n),
        Err(code) => if code == ERROR_PIPE_NOT_CONNECTED {
            Ok(0)
        } else {
            Err(code)
        },
    }
}

/// Win32 error for a file or pipe instance that does not (yet) exist.
pub const ERROR_FILE_NOT_FOUND: u32 = 2;

/// Win32 access bits of `PIPE_ACCESS_DUPLEX`: a listener instance serving
/// both directions.
pub const PIPE_ACCESS_DUPLEX_BITS: u32 = 3;

/// Win32 flag bit of `FILE_FLAG_FIRST_PIPE_INSTANCE`: the instance is
/// created only if no instance of the pipe exists yet.
pub const FIRST_INSTANCE_BIT: u32 = 0x00080000;

/// The access flags a fresh listener instance is created with: duplex
/// always, and claiming first-instance rights exactly when no listener
/// existed before for this pipe.
pub fn listener_access_flags(first: bool) -> (r: u32)
    ensures
        r == PIPE_ACCESS_DUPLEX_BITS | if first {
            FIRST_INSTANCE_BIT
        } else {
            0
        },
    {
    proof {
        assert(PIPE_ACCESS_DUPLEX_BITS | 0 == PIPE_ACCESS_DUPLEX_BITS) by (bit_vector);
    }
    if first {
        PIPE_ACCESS_DUPLEX_BITS | FIRST_INSTANCE_BIT
    } else {
        PIPE_ACCESS_DUPLEX_BITS
    }
}

/// What the connecting writer does after one wait for a listener.
#[derive(Clone, Copy, Debug, PartialEq, Eq, Structural)]
pub enum ConnectOutcome {
    /// A listener is available: proceed to open the client handle.
    Proceed,
    /// No listener instance exists yet: keep waiting.
    KeepWaiting,
    /// The failure carried no OS code: stop waiting and proceed regardless.
    StopWaiting,
    /// Surface the OS error to the caller.
    Surface(u32),
}

/// The connect-wait decision: a successful wait proceeds; a not-found error
/// means no listener instance exists yet, so the wait is repeated; a failure
/// without an OS code ends the wait; any other code surfaces.
pub open spec fn spec_connect_wait_outcome(res: Result<(), Option<u32>>) -> ConnectOutcome {
    match res {
        Ok(()) => ConnectOutcome::Proceed,
        Err(Some(code)) => if code == ERROR_FILE_NOT_FOUND {
            ConnectOutcome::KeepWaiting
        } else {
            ConnectOutcome::Surface(code)
        },
        Err(None) => ConnectOutcome::StopWaiting,
    }
}

/// Runtime form of [`spec_connect_wait_outcome`].
pub fn connect_wait_outcome(res: Result<(), Option<u32>>) -> (r: ConnectOutcome)
    ensures
        r == spec_connect_wait_outcome(res),
{
    match res {
        Ok(()) => ConnectOutcome::Proceed,
        Err(Some(code)) => if code == ERROR_FILE_NOT_FOUND {
            ConnectOutcome::KeepWaiting
        } else {
            ConnectOutcome::Surface(code)
        },
        Err(None) => ConnectOutcome::StopWaiting,
    }
}

/// What the duplex read loop does after one attempt.
#[derive(Clone, Copy, Debug, PartialEq, Eq, Structural)]
pub enum ReadOutcome {
    /// Hand the byte count to the caller.
    Deliver(usize),
    /// Report end-of-stream: the failure carried no OS code, a benign
    /// disconnect.
    Eof,
    /// Replace the listener with a fresh accepted instance and retry the
    /// read transparently.
    Reconnect,
    /// Surface the OS error to the caller.
    Surface(u32),
}

/// The read-side decision: a success is delivered; a broken-pipe error means
/// the client went away, so a fresh listener instance is accepted and the
/// read retried; a failure without an OS code is a benign end-of-stream; any
/// other code surfaces.
pub open spec fn spec_read_outcome(res: Result<usize, Option<u32>>) -> ReadOutcome {
    match res {
        Ok(n) => ReadOutcome::Deliver(n),
        Err(Some(code)) => if code == ERROR_BROKEN_PIPE {
            ReadOutcome::Reconnect
        } else {
            ReadOutcome::Surface(code)
        },
        Err(None) => ReadOutcome::Eof,
    }
}

/// Runtime form of [`spec_read_outcome`].
pub fn read_outcome(res: Result<usize, Option<u32>>) -> (r: ReadOutcome)
    ensures
        r == spec_read_outcome(res),
{
    match res {
        Ok(n) => ReadOutcome::Deliver(n),
        Err(Some(code)) => if code == ERROR_BROKEN_PIPE {
            ReadOutcome::Reconnect
        } else {
            ReadOutcome::Surface(code)
        },
        Err(None) => ReadOutcome::Eof,
    }
}

/// What the duplex write path does after one attempt.
#[derive(Clone, Copy, Debug, PartialEq, Eq, Structural)]
pub enum WriteOutcome {
    /// Hand the byte count to the caller.
    Deliver(usize),
    /// Discard the stale client handle, connect afresh, and try once more.
    ReconnectRetry,
    /// Surface the OS error to the caller.
    Surface(u32),
}

/// The write-side decision: a success is delivered; a no-data error on the
/// first attempt means the old server instance is gone, so the client handle
/// is discarded and one reconnect is tried; after that retry, every failure
/// surfaces.
pub open spec fn spec_write_outcome(already_retried: bool, res: Result<usize, u32>) -> WriteOutcome {
    match res {
        Ok(n) => WriteOutcome::Deliver(n),
        Err(code) => if code == ERROR_NO_DATA && !already_retried {
            WriteOutcome::ReconnectRetry
        } else {
            WriteOutcome::Surface(code)
        },
    }
}

/// Runtime form of [`spec_write_outcome`].
pub fn write_outcome(already_retried: bool, res: Result<usize, u32>) -> (r: WriteOutcome)
    ensures
        r == spec_write_outcome(already_retried, res),
{
    match res {
        Ok(n) => WriteOutcome::Deliver(n),
        Err(code) => if code == ERROR_NO_DATA && !already_retried {
            WriteOutcome::ReconnectRetry
        } else {
            WriteOutcome::Surface(code)
        },
    }
}

/// Law: the write side's transparent reconnect happens at most once per
/// write call — after a retry, no result asks for another reconnect, so a
/// driver performing the returned actions makes at most two attempts.
pub proof fn lemma_write_retries_at_most_once(res: Result<usize, u32>)
    ensures
        !(spec_write_outcome(true, res) is ReconnectRetry),
{
}

/// Law: the read side retries only for a broken-pipe error; every failure it
/// surfaces is a real OS error, and a codeless failure always ends the
/// stream quietly.
pub proof fn lemma_read_surfaces_only_real_errors(res: Result<usize, Option<u32>>)
    ensures
        spec_read_outcome(res) is Reconnect ==> res == Err::<usize, Option<u32>>(
            Some(ERROR_BROKEN_PIPE),
        ),
        spec_read_outcome(res) matches ReadOutcome::Surface(code) ==> res == Err::<
            usize,
            Option<u32>,
        >(Some(code)) && code != ERROR_BROKEN_PIPE,
{
}

} // verus!
