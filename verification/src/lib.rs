//! Safe, verified core of a desktop-windowing wrapper library.
//!
//! The native windowing subsystem itself is reached only from unverified
//! shell code; this crate holds everything that can be stated and proved:
//! bitmask style types, command decoding, the message-loop decision,
//! the handle-ownership discipline, the window and window-class builders,
//! and the build-time manifest and version-resource generators.

use vstd::prelude::*;

use crate::textfmt::spec_dec;
use crate::textfmt::dec_u32;

pub mod brush;
pub mod button;
pub mod cargo;
pub mod cursor;
pub mod dc;
pub mod dialog;
pub mod dll;
pub mod flags;
pub mod handle;
pub mod icon;
pub mod manifest;
pub mod msg;
pub mod paint;
pub mod resource;
pub mod static_;
pub mod target;
pub mod text;
pub mod textfmt;
pub mod traits;
pub mod util;
pub mod wnd;
pub mod wnd_class;
pub mod wnd_proc;

verus! {

/// Error taxonomy of the library: a failure reported by the platform's
/// last-error mechanism, or a constructed descriptive message.
#[derive(Debug)]
pub enum Error {
    Os(u32),
    Other(String),
}

impl Error {
    /// True of the platform-reported variant.
    pub fn is_os(&self) -> (r: bool)
        ensures
            r == self is Os,
    {
        match self {
            Error::Os(_) => true,
            Error::Other(_) => false,
        }
    }

    /// The error described in words: the platform error code, or the
    /// constructed message itself.
    pub fn message(&self) -> (r: String)
        ensures
            self matches Error::Os(code) ==> r@ == "os error "@ + spec_dec(code as nat),
            self matches Error::Other(m) ==> r@ == m@,
    {
        match self {
            Error::Os(code) => {
                let mut r = "os error ".to_owned();
                let d = dec_u32(*code);
                r.append(d.as_str());
                r
            },
            Error::Other(m) => m.as_str().to_owned(),
        }
    }
}

/// Wraps a platform error code, as read from the last-error mechanism,
/// into the failing result the native call surfaces.
pub fn last_error<T>(code: u32) -> (r: Result<T, Error>)
    ensures
        r == Result::<T, Error>::Err(Error::Os(code)),
{
    Err(Error::Os(code))
}

/// A failure that the platform did not report itself: carries a message.
pub fn other_error<T>(msg: &str) -> (r: Result<T, Error>)
    ensures
        r matches Err(e) && e matches Error::Other(m) && m@ == msg@,
{
    Err(Error::Other(msg.to_owned()))
}

} // verus!
