//! Icons: loading decodes, identifiers, and the shared-resource
//! ownership rule.

use vstd::prelude::*;

use crate::Error;
use crate::last_error;
use crate::handle::DisposeAction;
use crate::handle::Handle;
use crate::traits::AsId;
use crate::traits::AsRaw;
use crate::traits::IdThunk;
use crate::traits::IntoRaw;
use crate::traits::TryDrop;
use crate::util::ResId;
use crate::util::ResIdView;
use crate::util::WCString;
use crate::util::wide_null;
use vstd::slice::slice_to_vec;

verus! {

/// The ordinal of the standard application icon.
pub const IDI_APPLICATION: u16 = 32512;

/// A loaded icon.  Icons loaded from system resources are shared: the
/// system owns them, and teardown must never destroy them.
#[derive(Debug)]
pub struct Icon {
    h: Handle,
}

impl Icon {
    pub closed spec fn handle(self) -> Handle {
        self.h
    }

    pub open spec fn wf(self) -> bool {
        self.handle().wf()
    }

    /// Whether this icon is the system's, never ours to destroy.
    pub open spec fn is_shared(self) -> bool {
        self.handle().is_shared()
    }

    /// Decodes the native icon-loading call's result: a null handle
    /// means failure with the platform error code; a loaded icon is a
    /// shared resource.
    pub fn load(raw: usize, err_code: u32) -> (r: Result<Icon, Error>)
        ensures
            raw == 0 ==> r == Result::<Icon, Error>::Err(Error::Os(err_code)),
            raw != 0 ==> (r matches Ok(c) && c.handle().spec_raw() == raw && c.is_shared()
                && c.wf() && c.handle().is_armed()),
    {
        if raw == 0 {
            last_error(err_code)
        } else {
            Ok(Icon { h: Handle::acquired(raw, true) })
        }
    }
}

impl AsRaw for Icon {
    type Raw = usize;

    open spec fn spec_raw(&self) -> usize {
        self.handle().spec_raw()
    }

    open spec fn as_raw_req(&self) -> bool {
        self.handle().is_armed() && self.handle().wf()
    }

    fn as_raw(&self) -> (r: usize) {
        self.h.as_raw()
    }
}

impl IntoRaw for Icon {
    fn into_raw(self) -> (r: usize) {
        let mut h = self.h;
        h.release()
    }
}

impl TryDrop for Icon {
    type Action = DisposeAction;

    open spec fn try_drop_req(&self) -> bool {
        self.wf()
    }

    open spec fn spec_dispose_target(&self) -> DisposeAction {
        self.handle().dispose_target()
    }

    fn try_drop(self) -> (r: DisposeAction) {
        let mut h = self.h;
        h.dispose()
    }
}

/// Shared-resource law, at the icon level: a shared icon's teardown
/// never asks for a destroy call.
pub proof fn lemma_shared_icon_skips_destroy(c: Icon)
    requires
        c.is_shared(),
    ensures
        c.spec_dispose_target() == DisposeAction::Skip,
{
}

/// Identifies an icon to the loading call: a system ordinal or a name.
#[derive(Debug)]
pub struct IconId {
    id: ResId,
}

impl View for IconId {
    type V = ResIdView;

    closed spec fn view(&self) -> ResIdView {
        self.id@
    }
}

impl IconId {
    /// The identifier carried.
    pub fn res_id(&self) -> (r: &ResId)
        ensures
            r@ == self@,
    {
        &self.id
    }
}

impl<'a> AsId<IconId> for &'a str {
    type IdThunk = WCString;

    open spec fn spec_id_view(self) -> ResIdView {
        ResIdView::Name(wide_null(self@))
    }

    fn into_id_thunk(self) -> (r: WCString) {
        WCString::from_str(self)
    }
}

impl IdThunk<IconId> for WCString {
    open spec fn spec_id_view(&self) -> ResIdView {
        ResIdView::Name(self@)
    }

    fn as_id(&self) -> (r: IconId) {
        IconId { id: ResId::Name(slice_to_vec(self.as_ptr())) }
    }
}

impl AsId<IconId> for u16 {
    type IdThunk = u16;

    open spec fn spec_id_view(self) -> ResIdView {
        ResIdView::Ordinal(self)
    }

    fn into_id_thunk(self) -> (r: u16) {
        self
    }
}

impl IdThunk<IconId> for u16 {
    open spec fn spec_id_view(&self) -> ResIdView {
        ResIdView::Ordinal(*self)
    }

    fn as_id(&self) -> (r: IconId) {
        IconId { id: ResId::Ordinal(*self) }
    }
}

} // verus!
