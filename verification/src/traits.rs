//! Capability traits shared by the resource wrappers: read a raw handle,
//! give one up, rebuild a wrapper from one, tear one down, and name a
//! resource by an identifier.

use vstd::prelude::*;

verus! {

/// Read-only access to the raw native handle behind a wrapper.
pub trait AsRaw {
    type Raw;

    spec fn spec_raw(&self) -> Self::Raw;

    spec fn as_raw_req(&self) -> bool;

    fn as_raw(&self) -> (r: Self::Raw)
        requires
            self.as_raw_req(),
        ensures
            r == self.spec_raw(),
    ;
}

impl<'a, T: AsRaw> AsRaw for &'a T {
    type Raw = T::Raw;

    open spec fn spec_raw(&self) -> T::Raw {
        (**self).spec_raw()
    }

    open spec fn as_raw_req(&self) -> bool {
        (**self).as_raw_req()
    }

    fn as_raw(&self) -> (r: T::Raw) {
        (**self).as_raw()
    }
}

/// Consuming release of ownership: hands the raw handle out; the
/// wrapper's teardown then destroys nothing.
pub trait IntoRaw: AsRaw {
    fn into_raw(self) -> (r: Self::Raw)
        requires
            self.as_raw_req(),
        ensures
            r == self.spec_raw(),
    ;
}

/// Rebuilds an owning wrapper around a raw handle.
pub trait FromRaw: AsRaw {
    spec fn from_raw_req(raw: Self::Raw) -> bool;

    fn from_raw(raw: Self::Raw) -> (r: Self) where Self: Sized
        requires
            Self::from_raw_req(raw),
        ensures
            r.spec_raw() == raw,
            r.as_raw_req(),
    ;
}

/// Explicit fallible teardown: instead of hiding the native release in a
/// destructor, a wrapper reports the action its unverified shell must
/// carry out.
pub trait TryDrop: Sized {
    type Action;

    spec fn try_drop_req(&self) -> bool;

    spec fn spec_dispose_target(&self) -> Self::Action;

    fn try_drop(self) -> (r: Self::Action)
        requires
            self.try_drop_req(),
        ensures
            r == self.spec_dispose_target(),
    ;
}

/// A borrowed producer of a resource identifier.
pub trait IdThunk<Id: View>: Sized {
    spec fn spec_id_view(&self) -> Id::V;

    fn as_id(&self) -> (r: Id)
        ensures
            r@ == self.spec_id_view(),
    ;
}

/// Anything that can be turned into a holder of a resource identifier.
pub trait AsId<Id: View>: Sized {
    type IdThunk: IdThunk<Id>;

    spec fn spec_id_view(self) -> Id::V;

    fn into_id_thunk(self) -> (r: Self::IdThunk)
        ensures
            r.spec_id_view() == self.spec_id_view(),
    ;
}

} // verus!
