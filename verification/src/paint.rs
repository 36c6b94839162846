//! Paint sessions: the begin-paint decode and the device context it
//! yields; the matching end-paint call is the shell's duty when the
//! session ends.

use vstd::prelude::*;

use crate::Error;
use crate::last_error;
use crate::dc::Dc;
use crate::traits::AsRaw;

verus! {

/// One window paint session.
#[derive(Debug)]
pub struct WndPaint {
    wnd: usize,
    hdc: usize,
}

impl WndPaint {
    pub closed spec fn spec_wnd(self) -> usize {
        self.wnd
    }

    pub closed spec fn spec_hdc(self) -> usize {
        self.hdc
    }

    /// Decodes the native begin-paint call's result: a null device
    /// context means failure with the platform error code.
    pub fn begin_paint(wnd: usize, hdc: usize, err_code: u32) -> (r: Result<WndPaint, Error>)
        ensures
            hdc == 0 ==> r == Result::<WndPaint, Error>::Err(Error::Os(err_code)),
            hdc != 0 ==> (r matches Ok(p) && p.spec_wnd() == wnd && p.spec_hdc() == hdc),
    {
        if hdc == 0 {
            last_error(err_code)
        } else {
            Ok(WndPaint { wnd, hdc })
        }
    }

    /// The session's device context.
    pub fn dc(&self) -> (r: Dc)
        ensures
            r.spec_raw() == self.spec_hdc(),
    {
        Dc::from_raw_dc(self.hdc)
    }

    /// The window being painted, for the shell's closing end-paint call.
    pub fn wnd(&self) -> (r: usize)
        ensures
            r == self.spec_wnd(),
    {
        self.wnd
    }
}

} // verus!
