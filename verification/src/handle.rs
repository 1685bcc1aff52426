//! Ownership-tagged wrapper for one raw OS pipe descriptor.
//!
//! A raw descriptor lives in a shared slot: a reference-counted,
//! lock-protected cell holding the descriptor while it is live.  Exactly one
//! [`Handle`] per slot is *owning* and may tear the descriptor down; every
//! other reference is *observing* and, once the owner has torn down, resolves
//! to absent rather than to a stale descriptor value.
//!
//! The owning handle additionally keeps the descriptor in a direct field of
//! its own, emptied by `teardown` together with the slot.  That field is the
//! owner's knowledge of liveness: while it is filled, `raw` is guaranteed to
//! produce the descriptor, and after teardown it is guaranteed to produce
//! absent.  An observing reference has no such knowledge of its own — what
//! it sees depends on whether the owner has torn down — so its contract can
//! promise only that a produced value is never stale.

use std::sync::Arc;
use vstd::prelude::*;
use vstd::rwlock::{RwLock, RwLockPredicate};
use crate::Error;
use crate::sys;

verus! {

/// The established direction of a handle: assigned once, from `Unknown` to a
/// concrete role, and never changed afterwards.
#[derive(Clone, Copy, Debug, PartialEq, Eq, Structural)]
pub enum HandleType {
    Read,
    Write,
    Unknown,
}

/// Lock invariant of a descriptor slot: while the slot is filled, it holds
/// exactly the descriptor it was created with.
pub struct FdPred {
    pub fd: int,
}

impl RwLockPredicate<Option<i32>> for FdPred {
    open spec fn inv(self, v: Option<i32>) -> bool {
        v matches Some(f) ==> f == self.fd
    }
}

/// One reference to a raw OS pipe descriptor, tagged with whether it owns the
/// descriptor's lifetime and with its established direction.
pub struct Handle {
    slot: Arc<RwLock<Option<i32>, FdPred>>,
    local: Option<i32>,
    owning: bool,
    ty: HandleType,
}

impl Handle {
    /// The direct field holds the slot's one descriptor or nothing, and only
    /// an owning reference holds it.
    #[verifier::type_invariant]
    closed spec fn type_inv(self) -> bool {
        &&& (self.local matches Some(f) ==> f as int == self.slot.pred().fd)
        &&& (!self.owning ==> self.local is None)
    }

    /// The descriptor value this handle refers to.
    pub closed spec fn fd(self) -> int {
        self.slot.pred().fd
    }

    /// Whether this reference owns the descriptor's lifetime.
    pub closed spec fn is_owning(self) -> bool {
        self.owning
    }

    /// The established direction of this reference.
    pub closed spec fn role(self) -> HandleType {
        self.ty
    }

    /// Whether this reference itself still holds the live descriptor: true
    /// for an owning reference until its teardown, never for an observing
    /// one, whose view of liveness depends on the owner.
    pub closed spec fn live(self) -> bool {
        self.local is Some
    }

    /// Wrap a freshly obtained raw descriptor as a live owning handle with
    /// no established direction yet.
    pub fn acquire_owning(fd: i32) -> (h: Handle)
        ensures
            h.fd() == fd as int,
            h.is_owning(),
            h.live(),
            h.role() is Unknown,
    {
        Handle {
            slot: Arc::new(RwLock::new(Some(fd), Ghost(FdPred { fd: fd as int }))),
            local: Some(fd),
            owning: true,
            ty: HandleType::Unknown,
        }
    }

    /// Produce an observing reference to the same descriptor slot.
    pub fn downgrade(&self) -> (h: Handle)
        ensures
            h.fd() == self.fd(),
            !h.is_owning(),
            !h.live(),
            h.role() == self.role(),
    {
        Handle { slot: self.slot.clone(), local: None, owning: false, ty: self.ty }
    }

    /// The raw descriptor, if still live.  A live owning reference always
    /// produces the descriptor, and after its teardown always produces
    /// absent; an observing reference whose owner has torn down reports
    /// absent, never a stale value.
    pub fn raw(&self) -> (r: Option<i32>)
        ensures
            r matches Some(f) ==> f as int == self.fd(),
            self.live() ==> r is Some,
            self.is_owning() && !self.live() ==> r is None,
    {
        proof {
            use_type_invariant(self);
        }
        if self.owning {
            self.local
        } else {
            let read_handle = (&*self.slot).acquire_read();
            let val = *read_handle.borrow();
            read_handle.release_read();
            val
        }
    }

    /// Whether this reference owns the descriptor's lifetime.
    pub fn is_owner(&self) -> (b: bool)
        ensures
            b == self.is_owning(),
    {
        self.owning
    }

    /// The direction tag of this reference.
    pub fn handle_type(&self) -> (t: HandleType)
        ensures
            t == self.role(),
    {
        self.ty
    }

    /// Establish the direction if it is still `Unknown`; an established role
    /// is never retroactively changed.
    pub fn set_type(&mut self, ty: HandleType)
        ensures
            final(self).role() == if old(self).role() is Unknown {
                ty
            } else {
                old(self).role()
            },
            final(self).fd() == old(self).fd(),
            final(self).is_owning() == old(self).is_owning(),
            final(self).live() == old(self).live(),
    {
        proof {
            use_type_invariant(&*self);
        }
        if self.ty == HandleType::Unknown {
            self.ty = ty;
        }
    }

    /// Whether the two references resolve to the same live descriptor with
    /// the same established direction: guaranteed true for two live
    /// references to one descriptor and one role, and never true across
    /// different descriptors, roles, or a torn-down target.
    pub fn same_target(&self, other: &Handle) -> (r: bool)
        ensures
            r ==> self.role() == other.role() && self.fd() == other.fd(),
            self.live() && other.live() && self.role() == other.role() && self.fd()
                == other.fd() ==> r,
    {
        if self.handle_type() != other.handle_type() {
            return false;
        }
        match (self.raw(), other.raw()) {
            (Some(a), Some(b)) => a == b,
            _ => false,
        }
    }

    /// Close the descriptor, exactly once over the slot's whole life: the
    /// slot and the owner's direct field are emptied, so a second teardown
    /// and every reference afterwards find the descriptor absent.  Only the
    /// owning reference may tear down.
    pub fn teardown(&mut self) -> (r: Result<(), Error>)
        requires
            old(self).is_owning(),
        ensures
            !final(self).live(),
            final(self).fd() == old(self).fd(),
            final(self).is_owning() == old(self).is_owning(),
            final(self).role() == old(self).role(),
    {
        proof {
            use_type_invariant(&*self);
        }
        let (val, write_handle) = (&*self.slot).acquire_write();
        let r = match val {
            Some(fd) => {
                match sys::sys_close(fd) {
                    Ok(()) => Ok(()),
                    Err(code) => Err(Error::from_errno(code)),
                }
            },
            None => Ok(()),
        };
        write_handle.release_write(None);
        self.local = None;
        r
    }
}

impl Clone for Handle {
    /// Cloning a handle produces an observing reference to the same slot.
    fn clone(&self) -> (h: Handle)
        ensures
            h.fd() == self.fd(),
            !h.is_owning(),
            !h.live(),
            h.role() == self.role(),
    {
        self.downgrade()
    }
}

} // verus!
