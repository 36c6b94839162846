//! Device contexts, as plain handle values the drawing calls take.

use vstd::prelude::*;

use crate::traits::AsRaw;

verus! {

/// A device context handle, borrowed from a paint session or another
/// native source; never owned or destroyed by this library.
#[derive(Debug, Clone, Copy, PartialEq, Eq, Structural)]
pub struct Dc {
    raw: usize,
}

impl Dc {
    /// Wraps a device-context handle the shell obtained.
    pub fn from_raw_dc(raw: usize) -> (r: Dc)
        ensures
            r.spec_raw() == raw,
    {
        Dc { raw }
    }
}

impl AsRaw for Dc {
    type Raw = usize;

    closed spec fn spec_raw(&self) -> usize {
        self.raw
    }

    open spec fn as_raw_req(&self) -> bool {
        true
    }

    fn as_raw(&self) -> (r: usize) {
        self.raw
    }
}

} // verus!
