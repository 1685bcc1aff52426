//! Cross-platform named-pipe abstraction.
//!
//! The crate exposes a single duplex, byte-stream [`pipe::Pipe`] type that can
//! be opened by filesystem path or by bare logical name, shared across call
//! sites as non-owning "slave" clones, and torn down deterministically by the
//! one owning instance.  A process-wide, name-keyed [`registry::Registry`]
//! multiplexes many logical readers and writers onto one pipe per name.
//!
//! On POSIX a pipe is a FIFO special file served by a single read-write file
//! descriptor; the connection-oriented Windows transport is modelled by the
//! pure state machines in [`duplex`].

use vstd::prelude::*;
use vstd::string::*;

pub mod duplex;
pub mod handle;
pub mod paths;
pub mod pipe;
pub mod registry;
mod sys;

pub use pipe::Pipe;
pub use registry::{close, close_all, get, init, print, Registry};

verus! {

/// Cleanup policy chosen when a pipe is opened: `Delete` removes the backing
/// filesystem path when the owning instance is torn down, `NoDelete` leaves it
/// in place.  Slave clones always carry `NoDelete`.
#[derive(Clone, Copy, Debug, PartialEq, Eq, Structural)]
pub enum OnCleanup {
    Delete,
    NoDelete,
}

/// Error type used throughout the crate.
///
/// `Ipipe` carries a fixed diagnostic text (a registry lookup miss);
/// `InvalidPath` marks a path without a parent directory or a target that is
/// not a pipe; `InvalidUtf8` marks bytes that were read when a string was
/// requested; `Native` carries an OS error: free-text context, the errno
/// value, and its description; `Misc` carries any other free-text fault.
#[derive(Debug)]
pub enum Error {
    Ipipe(&'static str),
    InvalidPath,
    InvalidUtf8,
    Native(&'static str, u32, String),
    Misc(String),
}

/// Which queued data a flush discards: only the output queue, or both
/// directions.
#[derive(Clone, Copy, Debug, PartialEq, Eq, Structural)]
pub enum FlushKind {
    Output,
    Both,
}

impl Error {
    /// Build the error for a failed OS call from its (positive) errno value.
    pub(crate) fn from_errno(code: i32) -> (e: Error)
        requires
            0 < code,
        ensures
            e matches Error::Native(ctx, c, d) && ctx@ == ""@ && c == code as u32 && d@
                == sys::errno_text(code as int),
    {
        Error::Native("", code as u32, String::from_str(sys::errno_desc(code)))
    }

    /// Render the error as text, in place of a `Display` implementation.
    pub fn message(&self) -> (r: String)
        ensures
            self matches Error::Ipipe(s) ==> r@ == s@,
            self matches Error::InvalidPath ==> r@ == "Invalid path"@,
            self matches Error::InvalidUtf8 ==> r@ == "Invalid Utf8"@,
            self matches Error::Native(t, c, d) ==> r@ == t@ + ": "@ + paths::dec_rep(c as nat)
                + " - "@ + d@,
            self matches Error::Misc(s) ==> r@ == s@,
    {
        match self {
            Error::Ipipe(s) => String::from_str(s),
            Error::InvalidPath => String::from_str("Invalid path"),
            Error::InvalidUtf8 => String::from_str("Invalid Utf8"),
            Error::Native(t, c, d) => {
                let mut r = String::from_str(t);
                r.append(": ");
                let num = paths::u32_to_string(*c);
                r.append(num.as_str());
                r.append(" - ");
                r.append(d.as_str());
                r
            },
            Error::Misc(s) => s.clone(),
        }
    }
}

} // verus!
