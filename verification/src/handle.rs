//! Ownership discipline for native resource handles.
//!
//! A [`Handle`] records one native resource: its raw value, whether the
//! resource is shared (owned by the system, never to be destroyed by us)
//! and whether this wrapper is still armed to destroy it.  The raw value
//! is invalid (zero) only in the tombstone state left behind once
//! ownership has been released or the wrapper disposed.
//!
//! The verified library never calls the native destroy routine itself:
//! disposal yields a [`DisposeAction`] that the unverified shell must
//! carry out, and [`teardown_outcome`] says what the shell's report of
//! that call means.

use vstd::prelude::*;

use crate::Error;
use crate::last_error;

verus! {

/// What a wrapper's destructor must do: destroy the given raw handle
/// through the resource's native release routine, or nothing at all.
#[derive(Debug, Clone, Copy, PartialEq, Eq, Structural)]
pub enum DisposeAction {
    Destroy(usize),
    Skip,
}

/// Ownership record of one native resource handle.
#[derive(Debug, Clone, Copy, PartialEq, Eq, Structural)]
pub struct Handle {
    raw: usize,
    shared: bool,
    armed: bool,
}

impl Handle {
    /// A live handle is never the invalid zero value; zero appears only
    /// in the tombstone state after release or disposal.
    pub open spec fn wf(self) -> bool {
        self.is_armed() ==> self.spec_raw() != 0
    }

    pub closed spec fn spec_raw(self) -> usize {
        self.raw
    }

    /// Shared resources belong to the system and must never be destroyed
    /// by this library.
    pub closed spec fn is_shared(self) -> bool {
        self.shared
    }

    /// Armed: this wrapper still answers for the resource's teardown.
    pub closed spec fn is_armed(self) -> bool {
        self.armed
    }

    /// What disposing the wrapper in its current state must do.
    pub open spec fn dispose_target(self) -> DisposeAction {
        if self.is_armed() && !self.is_shared() {
            DisposeAction::Destroy(self.spec_raw())
        } else {
            DisposeAction::Skip
        }
    }

    /// Takes ownership of a freshly acquired native handle.
    pub fn acquired(raw: usize, shared: bool) -> (r: Self)
        requires
            raw != 0,
        ensures
            r.spec_raw() == raw,
            r.is_shared() == shared,
            r.is_armed(),
            r.wf(),
    {
        Handle { raw, shared, armed: true }
    }

    /// Read-only access to the raw handle, for handing to native calls;
    /// no ownership moves.
    pub fn as_raw(&self) -> (r: usize)
        requires
            self.is_armed(),
            self.wf(),
        ensures
            r == self.spec_raw(),
            r != 0,
    {
        self.raw
    }

    /// Releases ownership: hands the raw handle out and disarms this
    /// wrapper, leaving the tombstone state behind.  After this, disposal
    /// destroys nothing.
    pub fn release(&mut self) -> (r: usize)
        requires
            old(self).is_armed(),
            old(self).wf(),
        ensures
            r == old(self).spec_raw(),
            r != 0,
            !final(self).is_armed(),
            final(self).spec_raw() == 0,
            final(self).dispose_target() == DisposeAction::Skip,
            final(self).wf(),
    {
        let r = self.raw;
        self.raw = 0;
        self.armed = false;
        r
    }

    /// Disposes the wrapper: reports what the shell must destroy — the
    /// raw handle for an owned, still-armed resource, nothing for a
    /// shared or already-released one — and leaves the tombstone state.
    pub fn dispose(&mut self) -> (r: DisposeAction)
        requires
            old(self).wf(),
        ensures
            r == old(self).dispose_target(),
            !final(self).is_armed(),
            final(self).spec_raw() == 0,
            final(self).wf(),
    {
        let r = if self.armed && !self.shared {
            DisposeAction::Destroy(self.raw)
        } else {
            DisposeAction::Skip
        };
        self.raw = 0;
        self.armed = false;
        r
    }
}

/// Ownership law: once ownership has been released (the wrapper is no
/// longer armed), disposal performs no destroy call.
pub proof fn lemma_released_skips_destroy(h: Handle)
    requires
        !h.is_armed(),
    ensures
        h.dispose_target() == DisposeAction::Skip,
{
}

/// Shared-resource law: a wrapper tagged shared never asks for the
/// underlying destroy call, in any state.
pub proof fn lemma_shared_skips_destroy(h: Handle)
    requires
        h.is_shared(),
    ensures
        h.dispose_target() == DisposeAction::Skip,
{
}

/// Decodes the shell's report of carrying out a disposal: skipping
/// always succeeds; a destroy call succeeds exactly when the native
/// routine returned nonzero, and otherwise surfaces the platform error.
pub fn teardown_outcome(action: DisposeAction, status: i32, err_code: u32) -> (r: Result<
    (),
    Error,
>)
    ensures
        action is Skip ==> r is Ok,
        action is Destroy && status != 0 ==> r is Ok,
        action is Destroy && status == 0 ==> r == Result::<(), Error>::Err(
            Error::Os(err_code),
        ),
{
    match action {
        DisposeAction::Skip => Ok(()),
        DisposeAction::Destroy(_) => {
            if status == 0 {
                last_error(err_code)
            } else {
                Ok(())
            }
        },
    }
}

} // verus!
