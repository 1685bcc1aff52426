//! The duplex named-pipe handle.
//!
//! A [`Pipe`] wraps one or two ownership-tagged handles over a POSIX FIFO: a
//! single read-write descriptor serves both directions, and a second
//! descriptor for the opposite role is opened lazily if one is ever needed.
//! Cloning produces a non-owning "slave" that observes the same channel but
//! never tears it down and never deletes the backing path.
//!
//! Lifecycle policy: `close` is the one descriptor-teardown path.  It is
//! idempotent, closes every descriptor this instance owns exactly once, and
//! permanently invalidates the instance (later reads and writes fail rather
//! than reopening).  A destructor cannot take the descriptor slot's lock,
//! and closing a descriptor without emptying the shared slot would hand
//! observers a stale value, so dropping an owning, not-yet-closed instance
//! only releases its references and removes the backing path when the
//! cleanup policy asks for it; a failure to remove at drop time is ignored,
//! since no result channel exists there.

use vstd::prelude::*;
use vstd::string::*;
use vstd::utf8::encode_utf8;
use crate::handle::{Handle, HandleType};
use crate::paths;
use crate::sys;
use crate::{Error, FlushKind, OnCleanup};

verus! {

/// Permission bits for a freshly created FIFO: read and write for the owner
/// and the group.
pub const FIFO_MODE_BITS: u32 = 0o660;

/// Linux bits of `O_RDWR | O_NOCTTY`: every handle is opened for
/// read-write without becoming the controlling terminal.
pub const OPEN_FLAG_BITS: i32 = 0o402;

/// The Linux errno for a missing filesystem entry (`ENOENT`).
const ENOENT_CODE: i32 = 2;

/// The Linux errno for a dead descriptor (`EBADF`), reported when an
/// observing handle outlives its owner.
const EBADF_CODE: i32 = 9;

/// The FIFO bit of `st_mode` (`S_IFIFO`).
const FIFO_MODE_MASK: u32 = 0o010000;

/// What the stat probe of a target path revealed.
#[derive(Clone, Copy, Debug, PartialEq, Eq, Structural)]
pub enum TargetState {
    /// The path names an existing FIFO.
    Fifo,
    /// The path names an existing entry that is not a FIFO.
    NotFifo,
    /// Nothing exists at the path.
    Missing,
    /// The probe itself failed with this errno value.
    Inaccessible(i32),
}

/// How the stat result of a target path is interpreted: an existing entry is
/// a FIFO or not according to its mode bits, a missing-entry errno means
/// absent, and any other errno is a probe failure.
pub open spec fn spec_classify_target(st: Result<u32, i32>) -> TargetState {
    match st {
        Ok(mode) => if mode & 0o010000u32 != 0 {
            TargetState::Fifo
        } else {
            TargetState::NotFifo
        },
        Err(code) => if code == 2 {
            TargetState::Missing
        } else {
            TargetState::Inaccessible(code)
        },
    }
}

/// Runtime classification of a stat result; see [`spec_classify_target`].
pub fn classify_target(st: Result<u32, i32>) -> (r: TargetState)
    ensures
        r == spec_classify_target(st),
{
    match st {
        Ok(mode) => if mode & FIFO_MODE_MASK != 0 {
            TargetState::Fifo
        } else {
            TargetState::NotFifo
        },
        Err(code) => if code == ENOENT_CODE {
            TargetState::Missing
        } else {
            TargetState::Inaccessible(code)
        },
    }
}

/// The action a pipe operation takes on a probed target: attach to the
/// existing FIFO, create the FIFO first, reject the path outright, or
/// surface the carried OS error code.
#[derive(Clone, Copy, Debug, PartialEq, Eq, Structural)]
pub enum OpenStep {
    UseExisting,
    CreateFirst,
    RejectPath,
    Surface(i32),
}

/// What `open` does for each probed target state: an existing FIFO is used,
/// a missing entry is created first, an existing non-FIFO entry is rejected
/// as an invalid path (before any pipe syscall), and a failed probe
/// surfaces its error code.
pub open spec fn spec_open_step(t: TargetState) -> OpenStep {
    match t {
        TargetState::Fifo => OpenStep::UseExisting,
        TargetState::Missing => OpenStep::CreateFirst,
        TargetState::NotFifo => OpenStep::RejectPath,
        TargetState::Inaccessible(code) => OpenStep::Surface(code),
    }
}

/// Runtime form of [`spec_open_step`].
pub fn open_step(t: TargetState) -> (r: OpenStep)
    ensures
        r == spec_open_step(t),
{
    match t {
        TargetState::Fifo => OpenStep::UseExisting,
        TargetState::Missing => OpenStep::CreateFirst,
        TargetState::NotFifo => OpenStep::RejectPath,
        TargetState::Inaccessible(code) => OpenStep::Surface(code),
    }
}

/// What attaching a handle does for each probed target state: unlike
/// `open`, a missing entry is never created here but surfaces its
/// missing-entry error code; a non-FIFO entry is rejected the same way.
pub open spec fn spec_attach_step(t: TargetState) -> OpenStep {
    match t {
        TargetState::Fifo => OpenStep::UseExisting,
        TargetState::Missing => OpenStep::Surface(2),
        TargetState::NotFifo => OpenStep::RejectPath,
        TargetState::Inaccessible(code) => OpenStep::Surface(code),
    }
}

/// Runtime form of [`spec_attach_step`].
pub fn attach_step(t: TargetState) -> (r: OpenStep)
    ensures
        r == spec_attach_step(t),
{
    match t {
        TargetState::Fifo => OpenStep::UseExisting,
        TargetState::Missing => OpenStep::Surface(ENOENT_CODE),
        TargetState::NotFifo => OpenStep::RejectPath,
        TargetState::Inaccessible(code) => OpenStep::Surface(code),
    }
}

/// Law: an existing entry whose mode lacks the FIFO bit is rejected as an
/// invalid path, before any pipe syscall is reached, both when opening and
/// when attaching.
pub proof fn lemma_non_fifo_rejected(mode: u32)
    requires
        mode & 0o010000u32 == 0,
    ensures
        spec_open_step(spec_classify_target(Ok(mode))) == OpenStep::RejectPath,
        spec_attach_step(spec_classify_target(Ok(mode))) == OpenStep::RejectPath,
{
}

/// The exact form of a randomized pipe path: the fixed prefix and stem, the
/// decimal rendering of the process id, a separating underscore, and a
/// ten-character alphanumeric suffix.
pub open spec fn is_created_path(path: Seq<char>, pid: nat, s: Seq<char>) -> bool {
    &&& s.len() == 10
    &&& (forall|i: int| 0 <= i < s.len() ==> paths::is_alnum_char(#[trigger] s[i]))
    &&& path == paths::unix_prefix() + "pipe_"@ + paths::dec_rep(pid) + "_"@ + s
}

/// A path of the exact randomized shape, for some process id and suffix.
pub open spec fn spec_created_path_shape(path: Seq<char>) -> bool {
    exists|pid: nat, s: Seq<char>| is_created_path(path, pid, s)
}

/// Law: a randomized path determines its process id and suffix, so distinct
/// pairs of process id and suffix always name distinct channels.
pub proof fn lemma_created_path_unique(
    path: Seq<char>,
    pid1: nat,
    s1: Seq<char>,
    pid2: nat,
    s2: Seq<char>,
)
    requires
        is_created_path(path, pid1, s1),
        is_created_path(path, pid2, s2),
    ensures
        pid1 == pid2,
        s1 == s2,
{
    reveal_strlit("/tmp/");
    reveal_strlit("pipe_");
    reveal_strlit("_");
    let stem = paths::unix_prefix() + "pipe_"@;
    let pre1 = stem + paths::dec_rep(pid1) + "_"@;
    let pre2 = stem + paths::dec_rep(pid2) + "_"@;
    assert(pre1.last() == '_');
    assert(pre2.last() == '_');
    assert(!paths::is_alnum_char('_'));
    assert(pre1 + s1 =~= path);
    assert(pre2 + s2 =~= path);
    paths::lemma_name_of_prefixed(pre1, s1, '_');
    paths::lemma_name_of_prefixed(pre2, s2, '_');
    assert(s1 == s2);
    let d1 = paths::dec_rep(pid1);
    let d2 = paths::dec_rep(pid2);
    assert(path.len() == 10 + d1.len() + 1 + s1.len());
    assert(path.len() == 10 + d2.len() + 1 + s2.len());
    assert(d1 =~= d2) by {
        assert forall|i: int| 0 <= i < d1.len() implies d1[i] == d2[i] by {
            assert(path[10 + i] == d1[i]);
            assert(path[10 + i] == d2[i]);
        }
    }
    paths::lemma_dec_rep_injective(pid1, pid2);
}

/// The abstract state of a pipe: its backing path, its place in the
/// ownership protocol, its lifecycle flags, and the bytes this instance has
/// handed to the kernel's write side and taken off its read side, each in
/// order.
pub struct PipeView {
    pub path: Seq<char>,
    pub is_slave: bool,
    pub delete: OnCleanup,
    pub closed: bool,
    pub delete_attempted: bool,
    pub written: Seq<u8>,
    pub consumed: Seq<u8>,
}

/// Abstraction over a named pipe.
pub struct Pipe {
    handle1: Handle,
    handle2: Option<Handle>,
    path: String,
    is_slave: bool,
    delete: OnCleanup,
    closed: bool,
    delete_attempted: Ghost<bool>,
    written: Ghost<Seq<u8>>,
    consumed: Ghost<Seq<u8>>,
}

impl View for Pipe {
    type V = PipeView;

    closed spec fn view(&self) -> PipeView {
        PipeView {
            path: self.path@,
            is_slave: self.is_slave,
            delete: self.delete,
            closed: self.closed,
            delete_attempted: self.delete_attempted@,
            written: self.written@,
            consumed: self.consumed@,
        }
    }
}

impl Pipe {
    /// Well-formedness: the owning instance holds the owning reference to the
    /// first descriptor and a slave never does; a second descriptor, if
    /// present, carries the concrete role opposite to the first one's; a
    /// slave always carries the `NoDelete` policy; and a closed instance
    /// holds no live descriptor.
    pub closed spec fn wf(self) -> bool {
        &&& self.handle1.is_owning() == !self.is_slave
        &&& (!self.handle1.is_owning() ==> !self.handle1.live())
        &&& (self.handle2 matches Some(h) ==> {
            &&& !(h.role() is Unknown)
            &&& !(self.handle1.role() is Unknown)
            &&& h.role() != self.handle1.role()
            &&& (!h.is_owning() ==> !h.live())
        })
        &&& (self.is_slave ==> self.delete is NoDelete)
        &&& (self.closed ==> !self.primary_live() && !self.secondary_live())
    }

    /// Whether a descriptor with the wanted role is established.
    pub closed spec fn serves(self, want: HandleType) -> bool {
        self.handle1.role() == want || (self.handle2 matches Some(h) && h.role() == want)
    }

    /// The descriptor established for the wanted role.
    pub closed spec fn fd_for(self, want: HandleType) -> int {
        if self.handle1.role() == want {
            self.handle1.fd()
        } else {
            match self.handle2 {
                Some(h) => h.fd(),
                None => 0,
            }
        }
    }

    /// The established role of the first descriptor.
    pub closed spec fn primary_role(self) -> HandleType {
        self.handle1.role()
    }

    /// Whether this instance still holds the first descriptor live.  False
    /// for a slave, whose first handle only observes the owner's.
    pub closed spec fn primary_live(self) -> bool {
        self.handle1.live()
    }

    /// Whether a second descriptor slot exists.
    pub closed spec fn has_secondary(self) -> bool {
        self.handle2 is Some
    }

    /// Whether the second descriptor, if any, is owned by this instance
    /// (this instance opened it, rather than cloning an observer of one).
    pub closed spec fn secondary_owned(self) -> bool {
        self.handle2 matches Some(h) && h.is_owning()
    }

    /// Whether this instance still holds the second descriptor live.
    pub closed spec fn secondary_live(self) -> bool {
        self.handle2 matches Some(h) && h.live()
    }

    /// Open the FIFO at `path` as a live owning handle with no role yet,
    /// with the fixed flags [`OPEN_FLAG_BITS`].  The target must already
    /// exist and be a FIFO: following [`spec_attach_step`], a non-FIFO entry
    /// is rejected as an invalid path, and a missing one (nothing is created
    /// here) or a failed probe surfaces its OS error.
    fn init_handle(path: &str) -> (r: Result<Handle, Error>)
        ensures
            r matches Ok(h) ==> h.is_owning() && h.live() && h.role() is Unknown,
            !paths::spec_has_parent(path@) ==> (r matches Err(e) && e is InvalidPath),
            r matches Err(e) ==> e is InvalidPath || e is Native,
    {
        if !paths::path_has_parent(path) {
            return Err(Error::InvalidPath);
        }
        match attach_step(classify_target(sys::sys_stat_mode(path))) {
            OpenStep::UseExisting => {
                match sys::sys_open(path, OPEN_FLAG_BITS) {
                    Ok(fd) => Ok(Handle::acquire_owning(fd)),
                    Err(code) => Err(Error::from_errno(code)),
                }
            },
            OpenStep::CreateFirst => Err(Error::from_errno(ENOENT_CODE)),
            OpenStep::RejectPath => Err(Error::InvalidPath),
            OpenStep::Surface(code) => Err(Error::from_errno(code)),
        }
    }

    fn from_handle(handle: Handle, path: &str, on_cleanup: OnCleanup) -> (p: Pipe)
        requires
            handle.is_owning(),
            handle.live(),
            handle.role() is Unknown,
        ensures
            p.wf(),
            p@.path == path@,
            !p@.is_slave,
            p@.delete == on_cleanup,
            !p@.closed,
            !p@.delete_attempted,
            p@.written == Seq::<u8>::empty(),
            p@.consumed == Seq::<u8>::empty(),
            p.primary_live(),
            !p.has_secondary(),
    {
        Pipe {
            handle1: handle,
            handle2: None,
            path: String::from_str(path),
            is_slave: false,
            delete: on_cleanup,
            closed: false,
            delete_attempted: Ghost(false),
            written: Ghost(Seq::empty()),
            consumed: Ghost(Seq::empty()),
        }
    }

    /// Open or create a pipe at an exact platform-formatted path, following
    /// [`spec_open_step`] on the probed target: if the path has no parent
    /// directory, or an entry exists there that is not a FIFO, the call
    /// fails with `InvalidPath` before any pipe syscall is attempted; if
    /// nothing exists there, a FIFO with mode [`FIFO_MODE_BITS`] is created
    /// first.
    pub fn open(path: &str, on_cleanup: OnCleanup) -> (r: Result<Pipe, Error>)
        ensures
            !paths::spec_has_parent(path@) ==> (r matches Err(e) && e is InvalidPath),
            r matches Err(e) ==> e is InvalidPath || e is Native,
            r matches Ok(p) ==> {
                &&& p.wf()
                &&& p@.path == path@
                &&& !p@.is_slave
                &&& p@.delete == on_cleanup
                &&& !p@.closed
                &&& !p@.delete_attempted
                &&& p@.written == Seq::<u8>::empty()
                &&& p@.consumed == Seq::<u8>::empty()
                &&& p.primary_live()
                &&& !p.has_secondary()
            },
    {
        if !paths::path_has_parent(path) {
            return Err(Error::InvalidPath);
        }
        match open_step(classify_target(sys::sys_stat_mode(path))) {
            OpenStep::RejectPath => Err(Error::InvalidPath),
            OpenStep::Surface(code) => Err(Error::from_errno(code)),
            OpenStep::CreateFirst => {
                match sys::sys_mkfifo(path, FIFO_MODE_BITS) {
                    Err(code) => Err(Error::from_errno(code)),
                    Ok(()) => {
                        match Self::init_handle(path) {
                            Ok(h) => Ok(Self::from_handle(h, path, on_cleanup)),
                            Err(e) => Err(e),
                        }
                    },
                }
            },
            OpenStep::UseExisting => {
                match Self::init_handle(path) {
                    Ok(h) => Ok(Self::from_handle(h, path, on_cleanup)),
                    Err(e) => Err(e),
                }
            },
        }
    }

    /// Open or create a pipe with the given bare logical name, under the
    /// platform's fixed prefix.  The backing path is kept on teardown.
    pub fn with_name(name: &str) -> (r: Result<Pipe, Error>)
        ensures
            r matches Err(e) ==> e is InvalidPath || e is Native,
            r matches Ok(p) ==> {
                &&& p.wf()
                &&& p@.path == paths::unix_path_of(name@)
                &&& !p@.is_slave
                &&& p@.delete is NoDelete
                &&& !p@.closed
                &&& !p@.delete_attempted
                &&& p@.written == Seq::<u8>::empty()
                &&& p@.consumed == Seq::<u8>::empty()
                &&& p.primary_live()
            },
    {
        let path = paths::unix_path_for_name(name);
        Self::open(path.as_str(), OnCleanup::NoDelete)
    }

    /// Create a pipe under a randomized unique name: the process id and a
    /// random alphanumeric suffix, in the platform's temporary directory.
    /// The path of a created pipe has exactly the shape
    /// [`spec_created_path_shape`] describes.
    pub fn create() -> (r: Result<Pipe, Error>)
        ensures
            r matches Err(e) ==> e is InvalidPath || e is Native,
            r matches Ok(p) ==> {
                &&& p.wf()
                &&& !p@.is_slave
                &&& p@.delete is NoDelete
                &&& !p@.closed
                &&& !p@.delete_attempted
                &&& p@.written == Seq::<u8>::empty()
                &&& p@.consumed == Seq::<u8>::empty()
                &&& p.primary_live()
                &&& p@.path.len() > 10
                &&& p@.path.subrange(0, 10) == "/tmp/pipe_"@
                &&& spec_created_path_shape(p@.path)
            },
    {
        let pid = sys::sys_getpid();
        let digits = paths::u32_to_string(pid);
        let suffix = sys::random_alnum(10);
        let mut name = String::from_str("pipe_");
        name.append(digits.as_str());
        name.append("_");
        name.append(suffix.as_str());
        let path = paths::unix_path_for_name(name.as_str());
        proof {
            reveal_strlit("/tmp/");
            reveal_strlit("pipe_");
            reveal_strlit("_");
            reveal_strlit("/tmp/pipe_");
            assert(path@ =~= paths::unix_prefix() + "pipe_"@ + paths::dec_rep(pid as nat) + "_"@
                + suffix@);
            assert(is_created_path(path@, pid as nat, suffix@));
            assert(path@.subrange(0, 10) =~= "/tmp/pipe_"@);
        }
        Self::open(path.as_str(), OnCleanup::NoDelete)
    }

    /// The platform-formatted path backing this pipe.
    pub fn path(&self) -> (r: &str)
        ensures
            r@ == self@.path,
    {
        self.path.as_str()
    }

    /// The bare name of this pipe: the characters of the path after the last
    /// separator, or absent if the path ends with the separator.
    pub fn name(&self) -> (r: Option<String>)
        ensures
            r matches Some(s) ==> s@ == paths::suffix_after_last(self@.path, '/') && s@.len() > 0,
            r is None <==> paths::suffix_after_last(self@.path, '/').len() == 0,
    {
        let n = paths::name_part(self.path.as_str(), '/');
        if n.as_str().unicode_len() == 0 {
            None
        } else {
            Some(n)
        }
    }

    /// Establish (lazily) the descriptor for the wanted role and return its
    /// raw value: the first descriptor takes the first role ever wanted, and
    /// a second descriptor is opened for the opposite role on demand.  On a
    /// descriptor this instance owns, the outcome is exact: a live slot
    /// succeeds, a torn-down one fails with the dead-descriptor errno.
    fn init_handle_type(&mut self, want: HandleType) -> (r: Result<i32, Error>)
        requires
            old(self).wf(),
            !(want is Unknown),
            !old(self)@.closed,
        ensures
            final(self).wf(),
            final(self)@ == old(self)@,
            r matches Ok(fd) ==> final(self).serves(want) && fd as int == final(self).fd_for(
                want,
            ),
            r matches Err(e) ==> e is Native || e is InvalidPath,
            !old(self)@.is_slave && (old(self).primary_role() is Unknown || old(
                self,
            ).primary_role() == want) ==> {
                &&& (old(self).primary_live() ==> r is Ok)
                &&& (!old(self).primary_live() ==> (r matches Err(e) && e matches Error::Native(
                    _,
                    c,
                    _,
                ) && c == 9))
            },
            !(old(self).primary_role() is Unknown) && old(self).primary_role() != want && old(
                self,
            ).secondary_owned() ==> {
                &&& (old(self).secondary_live() ==> r is Ok)
                &&& (!old(self).secondary_live() ==> (r matches Err(e) && e matches Error::Native(
                    _,
                    c,
                    _,
                ) && c == 9))
            },
    {
        self.handle1.set_type(want);
        if self.handle1.handle_type() == want {
            match self.handle1.raw() {
                Some(fd) => Ok(fd),
                None => Err(Error::from_errno(EBADF_CODE)),
            }
        } else {
            if let Some(h) = &self.handle2 {
                match h.raw() {
                    Some(fd) => Ok(fd),
                    None => Err(Error::from_errno(EBADF_CODE)),
                }
            } else {
                let mut h = match Self::init_handle(self.path.as_str()) {
                    Ok(h) => h,
                    Err(e) => {
                        return Err(e);
                    },
                };
                h.set_type(want);
                let raw = h.raw();
                self.handle2 = Some(h);
                match raw {
                    Some(fd) => Ok(fd),
                    None => Err(Error::from_errno(EBADF_CODE)),
                }
            }
        }
    }

    /// Write the given bytes through the write side, establishing it first if
    /// needed.  On success, exactly the first `n` bytes of `bytes` have been
    /// handed to the kernel, in order, after everything written before.
    pub fn write_bytes(&mut self, bytes: &[u8]) -> (r: Result<usize, Error>)
        requires
            old(self).wf(),
        ensures
            final(self).wf(),
            final(self)@.path == old(self)@.path,
            final(self)@.is_slave == old(self)@.is_slave,
            final(self)@.delete == old(self)@.delete,
            final(self)@.closed == old(self)@.closed,
            final(self)@.delete_attempted == old(self)@.delete_attempted,
            final(self)@.consumed == old(self)@.consumed,
            old(self)@.closed ==> (r matches Err(e) && e is Ipipe),
            (r matches Err(e) && e is Ipipe) ==> old(self)@.closed,
            r matches Ok(n) ==> n <= bytes@.len() && final(self)@.written == old(self)@.written
                + bytes@.subrange(0, n as int),
            r is Err ==> final(self)@.written == old(self)@.written,
    {
        if self.closed {
            return Err(Error::Ipipe("pipe is closed"));
        }
        let fd = match self.init_handle_type(HandleType::Write) {
            Ok(fd) => fd,
            Err(e) => {
                return Err(e);
            },
        };
        match sys::sys_write(fd, bytes) {
            Ok(n) => {
                self.written = Ghost(self.written@ + bytes@.subrange(0, n as int));
                Ok(n)
            },
            Err(code) => Err(Error::from_errno(code)),
        }
    }

    /// Write a single byte.
    pub fn write_byte(&mut self, b: u8) -> (r: Result<usize, Error>)
        requires
            old(self).wf(),
        ensures
            final(self).wf(),
            final(self)@.path == old(self)@.path,
            final(self)@.is_slave == old(self)@.is_slave,
            final(self)@.delete == old(self)@.delete,
            final(self)@.closed == old(self)@.closed,
            final(self)@.delete_attempted == old(self)@.delete_attempted,
            final(self)@.consumed == old(self)@.consumed,
            old(self)@.closed ==> (r matches Err(e) && e is Ipipe),
            (r matches Err(e) && e is Ipipe) ==> old(self)@.closed,
            r matches Ok(n) ==> n <= 1 && final(self)@.written == old(self)@.written + seq![
                b,
            ].subrange(0, n as int),
            r is Err ==> final(self)@.written == old(self)@.written,
    {
        let buf = vec![b];
        let r = self.write_bytes(buf.as_slice());
        proof {
            assert(buf@ =~= seq![b]);
        }
        r
    }

    /// Write the UTF-8 bytes of a string.
    pub fn write_string(&mut self, s: &str) -> (r: Result<usize, Error>)
        requires
            old(self).wf(),
        ensures
            final(self).wf(),
            final(self)@.path == old(self)@.path,
            final(self)@.is_slave == old(self)@.is_slave,
            final(self)@.delete == old(self)@.delete,
            final(self)@.closed == old(self)@.closed,
            final(self)@.delete_attempted == old(self)@.delete_attempted,
            final(self)@.consumed == old(self)@.consumed,
            old(self)@.closed ==> (r matches Err(e) && e is Ipipe),
            (r matches Err(e) && e is Ipipe) ==> old(self)@.closed,
            r matches Ok(n) ==> n <= encode_utf8(s@).len() && final(self)@.written == old(
                self,
            )@.written + encode_utf8(s@).subrange(0, n as int),
            r is Err ==> final(self)@.written == old(self)@.written,
    {
        self.write_bytes(s.as_bytes())
    }

    /// Read up to `size` bytes through the read side, establishing it first
    /// if needed; blocks until at least one byte arrives or the stream ends.
    /// What comes back is appended, in order, to the log of consumed bytes.
    pub fn read_bytes(&mut self, size: usize) -> (r: Result<Vec<u8>, Error>)
        requires
            old(self).wf(),
        ensures
            final(self).wf(),
            final(self)@.path == old(self)@.path,
            final(self)@.is_slave == old(self)@.is_slave,
            final(self)@.delete == old(self)@.delete,
            final(self)@.closed == old(self)@.closed,
            final(self)@.delete_attempted == old(self)@.delete_attempted,
            final(self)@.written == old(self)@.written,
            old(self)@.closed ==> (r matches Err(e) && e is Ipipe),
            (r matches Err(e) && e is Ipipe) ==> old(self)@.closed,
            r matches Ok(v) ==> v@.len() <= size && final(self)@.consumed == old(self)@.consumed
                + v@,
            r is Err ==> final(self)@.consumed == old(self)@.consumed,
    {
        if self.closed {
            return Err(Error::Ipipe("pipe is closed"));
        }
        let fd = match self.init_handle_type(HandleType::Read) {
            Ok(fd) => fd,
            Err(e) => {
                return Err(e);
            },
        };
        let mut buf: Vec<u8> = Vec::new();
        let mut i: usize = 0;
        while i < size
            invariant
                buf@.len() == i,
                i <= size,
            decreases size - i,
        {
            buf.push(0u8);
            i = i + 1;
        }
        match sys::sys_read(fd, &mut buf) {
            Ok(n) => {
                buf.truncate(n);
                self.consumed = Ghost(self.consumed@ + buf@);
                Ok(buf)
            },
            Err(code) => Err(Error::from_errno(code)),
        }
    }

    /// Read a single byte; a stream end yields the zero byte without
    /// consuming anything.
    pub fn read_byte(&mut self) -> (r: Result<u8, Error>)
        requires
            old(self).wf(),
        ensures
            final(self).wf(),
            final(self)@.path == old(self)@.path,
            final(self)@.is_slave == old(self)@.is_slave,
            final(self)@.delete == old(self)@.delete,
            final(self)@.closed == old(self)@.closed,
            final(self)@.delete_attempted == old(self)@.delete_attempted,
            final(self)@.written == old(self)@.written,
            old(self)@.closed ==> (r matches Err(e) && e is Ipipe),
            (r matches Err(e) && e is Ipipe) ==> old(self)@.closed,
            r matches Ok(b) ==> final(self)@.consumed == old(self)@.consumed + seq![b]
                || final(self)@.consumed == old(self)@.consumed,
            r is Err ==> final(self)@.consumed == old(self)@.consumed,
    {
        match self.read_bytes(1) {
            Ok(v) => {
                if v.len() == 1 {
                    let b = v[0];
                    proof {
                        assert(v@ =~= seq![b]);
                    }
                    Ok(b)
                } else {
                    proof {
                        assert(v@ =~= Seq::<u8>::empty());
                        assert(old(self)@.consumed + v@ =~= old(self)@.consumed);
                    }
                    Ok(0)
                }
            },
            Err(e) => Err(e),
        }
    }

    /// Read up to `size` bytes and decode them as UTF-8: the returned string
    /// encodes exactly the bytes consumed by this call; bytes that are not
    /// valid UTF-8 yield `InvalidUtf8`.
    pub fn read_string(&mut self, size: usize) -> (r: Result<String, Error>)
        requires
            old(self).wf(),
        ensures
            final(self).wf(),
            final(self)@.path == old(self)@.path,
            final(self)@.is_slave == old(self)@.is_slave,
            final(self)@.delete == old(self)@.delete,
            final(self)@.closed == old(self)@.closed,
            final(self)@.delete_attempted == old(self)@.delete_attempted,
            final(self)@.written == old(self)@.written,
            old(self)@.closed ==> (r matches Err(e) && e is Ipipe),
            (r matches Err(e) && e is Ipipe) ==> old(self)@.closed,
            r matches Ok(s) ==> encode_utf8(s@).len() <= size && final(self)@.consumed == old(
                self,
            )@.consumed + encode_utf8(s@),
            (r matches Err(e) && !(e is InvalidUtf8)) ==> final(self)@.consumed == old(
                self,
            )@.consumed,
    {
        match self.read_bytes(size) {
            Ok(v) => {
                match sys::bytes_to_string(v) {
                    Some(s) => Ok(s),
                    None => Err(Error::InvalidUtf8),
                }
            },
            Err(e) => Err(e),
        }
    }

    /// Read byte by byte until the `stop` byte arrives, the stream ends, or
    /// `max` bytes have been collected; the stop byte itself is not
    /// included.  The result is exactly what was consumed by this call, less
    /// the stop byte if one arrived.  The explicit bound keeps the wait
    /// testable instead of unbounded.
    pub fn read_until(&mut self, stop: u8, max: usize) -> (r: Result<Vec<u8>, Error>)
        requires
            old(self).wf(),
        ensures
            final(self).wf(),
            final(self)@.path == old(self)@.path,
            final(self)@.is_slave == old(self)@.is_slave,
            final(self)@.delete == old(self)@.delete,
            final(self)@.closed == old(self)@.closed,
            final(self)@.delete_attempted == old(self)@.delete_attempted,
            final(self)@.written == old(self)@.written,
            old(self)@.closed ==> (r matches Err(e) && e is Ipipe),
            (r matches Err(e) && e is Ipipe) ==> old(self)@.closed,
            r matches Ok(v) ==> {
                &&& v@.len() <= max
                &&& (forall|i: int| 0 <= i < v@.len() ==> v@[i] != stop)
                &&& (final(self)@.consumed == old(self)@.consumed + v@ + seq![stop]
                    || final(self)@.consumed == old(self)@.consumed + v@)
            },
            r is Err ==> old(self)@.consumed.is_prefix_of(final(self)@.consumed),
    {
        if self.closed {
            return Err(Error::Ipipe("pipe is closed"));
        }
        let mut out: Vec<u8> = Vec::new();
        let mut i: usize = 0;
        while i < max
            invariant
                self.wf(),
                self@.path == old(self)@.path,
                self@.is_slave == old(self)@.is_slave,
                self@.delete == old(self)@.delete,
                self@.closed == old(self)@.closed,
                self@.delete_attempted == old(self)@.delete_attempted,
                self@.written == old(self)@.written,
                self@.consumed == old(self)@.consumed + out@,
                !self@.closed,
                out@.len() == i,
                i <= max,
                forall|j: int| 0 <= j < out@.len() ==> out@[j] != stop,
            decreases max - i,
        {
            let chunk = match self.read_bytes(1) {
                Ok(v) => v,
                Err(e) => {
                    proof {
                        assert(old(self)@.consumed.is_prefix_of(self@.consumed)) by {
                            assert(self@.consumed.subrange(
                                0,
                                old(self)@.consumed.len() as int,
                            ) =~= old(self)@.consumed);
                        }
                    }
                    return Err(e);
                },
            };
            if chunk.len() == 0 {
                proof {
                    assert(self@.consumed =~= old(self)@.consumed + out@);
                    assert(old(self)@.consumed + chunk@ =~= old(self)@.consumed);
                }
                return Ok(out);
            }
            let b = chunk[0];
            proof {
                assert(chunk@ =~= seq![b]);
            }
            if b == stop {
                proof {
                    assert(self@.consumed =~= old(self)@.consumed + out@ + seq![stop]);
                }
                return Ok(out);
            }
            out.push(b);
            proof {
                assert(self@.consumed =~= old(self)@.consumed + out@);
            }
            i = i + 1;
        }
        Ok(out)
    }

    /// Discard the kernel's queued output for the write side, establishing it
    /// first if needed.
    pub fn flush(&mut self) -> (r: Result<(), Error>)
        requires
            old(self).wf(),
        ensures
            final(self).wf(),
            final(self)@ == old(self)@,
            old(self)@.closed ==> (r matches Err(e) && e is Ipipe),
            (r matches Err(e) && e is Ipipe) ==> old(self)@.closed,
    {
        if self.closed {
            return Err(Error::Ipipe("pipe is closed"));
        }
        let fd = match self.init_handle_type(HandleType::Write) {
            Ok(fd) => fd,
            Err(e) => {
                return Err(e);
            },
        };
        match sys::sys_tcflush(fd, FlushKind::Output) {
            Ok(()) => Ok(()),
            Err(code) => Err(Error::from_errno(code)),
        }
    }

    /// Discard the kernel's queued data in both directions on the first
    /// descriptor, if it is still live; on an owning instance whose
    /// descriptor was torn down, the call fails with the dead-descriptor
    /// errno.
    pub fn flush_pipe(&self) -> (r: Result<(), Error>)
        requires
            self.wf(),
        ensures
            r matches Err(e) ==> e is Native,
            !self@.is_slave && !self.primary_live() ==> (r matches Err(e) && e matches Error::Native(
                _,
                c,
                _,
            ) && c == 9),
    {
        match self.handle1.raw() {
            Some(fd) => {
                match sys::sys_tcflush(fd, FlushKind::Both) {
                    Ok(()) => Ok(()),
                    Err(code) => Err(Error::from_errno(code)),
                }
            },
            None => Err(Error::from_errno(EBADF_CODE)),
        }
    }

    /// Produce a slave: a non-owning pipe observing the same channel, always
    /// carrying the `NoDelete` policy.  Dropping or closing a slave never
    /// tears the channel down and never deletes the backing path.
    pub fn slave(&self) -> (r: Pipe)
        ensures
            r@.path == self@.path,
            r@.is_slave,
            r@.delete is NoDelete,
            !r@.closed,
            !r@.delete_attempted,
            r@.written == Seq::<u8>::empty(),
            r@.consumed == Seq::<u8>::empty(),
            self.wf() ==> r.wf(),
    {
        let handle2 = match &self.handle2 {
            Some(h) => Some(h.downgrade()),
            None => None,
        };
        Pipe {
            handle1: self.handle1.downgrade(),
            handle2,
            path: self.path.clone(),
            is_slave: true,
            delete: OnCleanup::NoDelete,
            closed: false,
            delete_attempted: Ghost(false),
            written: Ghost(Seq::empty()),
            consumed: Ghost(Seq::empty()),
        }
    }

    /// Tear the pipe down early, idempotently: descriptors owned by this
    /// instance are closed exactly once, the backing path is removed when an
    /// owning instance carries the `Delete` policy, and the instance is
    /// permanently invalidated — afterwards it holds no live descriptor.
    /// A second call changes nothing and succeeds.
    pub fn close(&mut self) -> (r: Result<(), Error>)
        requires
            old(self).wf(),
        ensures
            final(self).wf(),
            final(self)@.closed,
            !final(self).primary_live(),
            !final(self).secondary_live(),
            final(self)@.path == old(self)@.path,
            final(self)@.is_slave == old(self)@.is_slave,
            final(self)@.delete == old(self)@.delete,
            final(self)@.written == old(self)@.written,
            final(self)@.consumed == old(self)@.consumed,
            old(self)@.closed ==> r is Ok && *final(self) == *old(self),
            final(self)@.delete_attempted == (old(self)@.delete_attempted || (!old(self)@.is_slave && !old(
                self,
            )@.closed && old(self)@.delete is Delete)),
            old(self)@.is_slave && !old(self)@.delete_attempted ==> !final(self)@.delete_attempted,
    {
        if self.closed {
            return Ok(());
        }
        self.closed = true;
        let mut result: Result<(), Error> = Ok(());
        if !self.is_slave {
            if let Err(e) = self.handle1.teardown() {
                result = Err(e);
            }
        }
        if let Some(h) = &mut self.handle2 {
            if h.is_owner() {
                if let Err(e) = h.teardown() {
                    if result.is_ok() {
                        result = Err(e);
                    }
                }
            }
        }
        if !self.is_slave {
            if let OnCleanup::Delete = self.delete {
                self.delete_attempted = Ghost(true);
                if let Err(code) = sys::sys_unlink(&self.path) {
                    if result.is_ok() {
                        result = Err(Error::from_errno(code));
                    }
                }
            }
        }
        result
    }
}

impl Clone for Pipe {
    /// Cloning a pipe creates a slave: it points at the same channel but
    /// never closes it or deletes the backing path.
    fn clone(&self) -> (r: Pipe)
        ensures
            r@.path == self@.path,
            r@.is_slave,
            r@.delete is NoDelete,
            !r@.closed,
            self.wf() ==> r.wf(),
    {
        self.slave()
    }
}

impl Drop for Pipe {
    /// An owning instance that was never closed removes the backing path
    /// when its policy is `Delete`; a failure to remove is ignored, since no
    /// result channel exists at drop time.  Slaves do nothing.
    fn drop(&mut self)
        opens_invariants none
        no_unwind
    {
        if !self.is_slave && !self.closed {
            if let OnCleanup::Delete = self.delete {
                let _ = sys::sys_unlink(&self.path);
            }
        }
    }
}

} // verus!
