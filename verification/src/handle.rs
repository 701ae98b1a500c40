//! Handle lifecycle: creation, validity, and one-time release.
//!
//! The engine hands out an opaque resource address; the caller must treat it
//! as a capability, not data. `Handle` is the typed form of that capability:
//! it can only be produced by [`Handle::create`] from whatever the engine
//! constructor returned, every operation gate checks it, and
//! [`Handle::release`] decides at most once that the engine destructor is to
//! be invoked.

use vstd::prelude::*;

verus! {

/// The three states a handle moves through. `create` yields `Live` (or
/// `Uninitialized`, when the engine constructor returned a null resource),
/// `release` moves `Live` to `Released`, and `Released` is terminal: no
/// transition re-enters `Live`.
#[derive(Clone, Copy, Debug, PartialEq, Eq, Structural)]
pub enum LifeState {
    /// The engine never produced a resource for this handle (null address).
    Uninitialized,
    /// The engine resource exists and has not been released.
    Live,
    /// The engine destructor has been requested for this handle.
    Released,
}

/// An opaque encoder handle: the engine resource's address together with the
/// binding's record of whether it has been released.
///
/// The engine resource is not assumed safe for unsynchronized concurrent use;
/// access to one handle must be serialized by its owner. Within this layer
/// Rust's borrow rules already enforce that: `release` takes the handle
/// exclusively, so it can never run concurrently with another operation on
/// the same handle.
pub struct Handle {
    raw: u64,
    released: bool,
}

impl Handle {
    /// The engine resource's address; `0` stands for null.
    pub closed spec fn raw_id(self) -> u64 {
        self.raw
    }

    /// Where the handle stands in its lifecycle.
    pub closed spec fn state(self) -> LifeState {
        if self.raw == 0 {
            LifeState::Uninitialized
        } else if self.released {
            LifeState::Released
        } else {
            LifeState::Live
        }
    }

    /// A handle may be handed to the engine exactly while it is live.
    pub open spec fn is_live(self) -> bool {
        self.state() is Live
    }

    /// Whether the handle is live, decided at run time. Every operation gate
    /// asks this before anything else.
    pub fn is_live_check(&self) -> (r: bool)
        ensures
            r == self.is_live(),
    {
        self.raw != 0 && !self.released
    }

    /// The resource address, for building a call description. Kept inside the
    /// crate so that callers outside it can reach the engine only through a
    /// gate that checked liveness first.
    pub(crate) fn raw(&self) -> (r: u64)
        ensures
            r == self.raw_id(),
    {
        self.raw
    }

    /// Wrap what the engine constructor returned. A null resource yields an
    /// uninitialized handle, never a fabricated live one.
    pub fn create(raw: u64) -> (h: Handle)
        ensures
            h.raw_id() == raw,
            h.state() == (if raw == 0 {
                LifeState::Uninitialized
            } else {
                LifeState::Live
            }),
    {
        Handle { raw, released: false }
    }

    /// One-time release. On a live handle it returns the address the engine
    /// destructor must be invoked on, exactly once; on an uninitialized or
    /// already-released handle it is a no-op and returns `None`.
    pub fn release(&mut self) -> (destroy: Option<u64>)
        ensures
            release_step(*old(self), *final(self), destroy),
    {
        if self.raw != 0 && !self.released {
            self.released = true;
            Some(self.raw)
        } else {
            self.released = true;
            None
        }
    }
}

/// The release transition relation: what `Handle::release` promises about the
/// handle before and after the call and about the destructor request.
pub open spec fn release_step(pre: Handle, post: Handle, destroy: Option<u64>) -> bool {
    &&& destroy == (if pre.is_live() {
        Some(pre.raw_id())
    } else {
        None::<u64>
    })
    &&& post.raw_id() == pre.raw_id()
    &&& post.state() == (if pre.state() is Live {
        LifeState::Released
    } else {
        pre.state()
    })
}

/// Release is idempotent: across two successive releases of one handle the
/// engine destructor is requested at most once, and never on a handle that
/// was not live to begin with.
pub proof fn lemma_release_idempotent(
    h0: Handle,
    h1: Handle,
    h2: Handle,
    d1: Option<u64>,
    d2: Option<u64>,
)
    requires
        release_step(h0, h1, d1),
        release_step(h1, h2, d2),
    ensures
        d1 is Some ==> d2 is None,
        !h0.is_live() ==> d1 is None && d2 is None,
        d1 is Some ==> d1 == Some(h0.raw_id()),
{
}

/// A release is permanent: afterwards the handle is not live, and it can
/// never become live again under further releases.
pub proof fn lemma_release_terminal(pre: Handle, post: Handle, destroy: Option<u64>)
    requires
        release_step(pre, post, destroy),
    ensures
        !post.is_live(),
        pre.state() is Uninitialized <==> post.state() is Uninitialized,
        !(pre.state() is Uninitialized) ==> post.state() is Released,
{
}

} // verus!
