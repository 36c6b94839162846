//! Fonts and text output: creation and drawing decodes, and the length
//! argument computation for the native text call.

use vstd::prelude::*;

use crate::Error;
use crate::other_error;
use crate::handle::DisposeAction;
use crate::handle::Handle;
use crate::traits::AsRaw;
use crate::traits::FromRaw;
use crate::traits::TryDrop;

verus! {

/// An owned font.
#[derive(Debug)]
pub struct Font {
    h: Handle,
}

impl Font {
    pub closed spec fn handle(self) -> Handle {
        self.h
    }

    pub open spec fn wf(self) -> bool {
        self.handle().wf() && !self.handle().is_shared()
    }

    /// Decodes the native font-creation call's result: this call leaves
    /// no platform error code, so a null handle surfaces a constructed
    /// message.
    pub fn create(raw: usize) -> (r: Result<Font, Error>)
        ensures
            raw == 0 ==> (r matches Err(e) && e matches Error::Other(m) && m@
                == "CreateFontIndirectW failed"@),
            raw != 0 ==> (r matches Ok(f) && f.handle().spec_raw() == raw && f.wf()
                && f.handle().is_armed()),
    {
        if raw == 0 {
            other_error("CreateFontIndirectW failed")
        } else {
            Ok(Font { h: Handle::acquired(raw, false) })
        }
    }
}

impl AsRaw for Font {
    type Raw = usize;

    open spec fn spec_raw(&self) -> usize {
        self.handle().spec_raw()
    }

    open spec fn as_raw_req(&self) -> bool {
        self.handle().is_armed() && self.handle().wf()
    }

    fn as_raw(&self) -> (r: usize) {
        self.h.as_raw()
    }
}

impl FromRaw for Font {
    open spec fn from_raw_req(raw: usize) -> bool {
        raw != 0
    }

    fn from_raw(raw: usize) -> (r: Font) {
        Font { h: Handle::acquired(raw, false) }
    }
}

impl TryDrop for Font {
    type Action = DisposeAction;

    open spec fn try_drop_req(&self) -> bool {
        self.wf()
    }

    open spec fn spec_dispose_target(&self) -> DisposeAction {
        self.handle().dispose_target()
    }

    fn try_drop(self) -> (r: DisposeAction) {
        let mut h = self.h;
        h.dispose()
    }
}

/// Decodes the shell's report of destroying a font: this call leaves no
/// platform error code, so failure surfaces a constructed message.
pub fn font_teardown_outcome(action: DisposeAction, status: i32) -> (r: Result<(), Error>)
    ensures
        action is Skip ==> r is Ok,
        action is Destroy && status != 0 ==> r is Ok,
        action is Destroy && status == 0 ==> (r matches Err(e) && e matches Error::Other(m)
            && m@ == "DeleteObject on font failed"@),
{
    match action {
        DisposeAction::Skip => Ok(()),
        DisposeAction::Destroy(_) => {
            if status == 0 {
                other_error("DeleteObject on font failed")
            } else {
                Ok(())
            }
        },
    }
}

/// The character-count argument of the native text call: the string's
/// unit count, saturated to the signed argument's range.
pub fn text_len_arg(len: usize) -> (r: i32)
    ensures
        len <= i32::MAX ==> r == len as i32,
        len > i32::MAX ==> r == i32::MAX,
{
    if len <= 0x7FFF_FFFF {
        len as i32
    } else {
        0x7FFF_FFFF
    }
}

/// Decodes the native text-output call's result: this call leaves no
/// platform error code, so failure surfaces a constructed message.
pub fn text_out_outcome(status: i32) -> (r: Result<(), Error>)
    ensures
        status == 0 ==> (r matches Err(e) && e matches Error::Other(m) && m@
            == "TextOutW failed"@),
        status != 0 ==> r is Ok,
{
    if status == 0 {
        other_error("TextOutW failed")
    } else {
        Ok(())
    }
}

} // verus!
