//! Window classes: registration identity, the class style family, and
//! the typed builder that assembles the registration record.

use vstd::prelude::*;
use vstd::pervasive::unreached;
use vstd::slice::slice_to_vec;

use crate::Error;
use crate::last_error;
use crate::flags::bit_set;
use crate::flags::contains_bits;
use crate::flags::lemma_complement;
use crate::flags::lemma_difference;
use crate::flags::lemma_intersection;
use crate::flags::lemma_masked_basics;
use crate::flags::lemma_toggle;
use crate::flags::lemma_truncate_union;
use crate::flags::lemma_union;
use crate::flags::masked;
use crate::traits::AsId;
use crate::traits::IdThunk;
use crate::traits::IntoRaw;
use crate::traits::TryDrop;
use crate::util::ResId;
use crate::util::ResIdView;
use crate::util::WCString;
use crate::util::wide_null;

verus! {

pub const CS_VREDRAW: u32 = 0x0000_0001;

pub const CS_HREDRAW: u32 = 0x0000_0002;

pub const CS_DBLCLKS: u32 = 0x0000_0008;

pub const CS_OWNDC: u32 = 0x0000_0020;

pub const CS_CLASSDC: u32 = 0x0000_0040;

pub const CS_PARENTDC: u32 = 0x0000_0080;

pub const CS_NOCLOSE: u32 = 0x0000_0200;

pub const CS_SAVEBITS: u32 = 0x0000_0800;

pub const CS_BYTEALIGNCLIENT: u32 = 0x0000_1000;

pub const CS_BYTEALIGNWINDOW: u32 = 0x0000_2000;

pub const CS_GLOBALCLASS: u32 = 0x0000_4000;

pub const CS_IME: u32 = 0x0001_0000;

pub const CS_DROPSHADOW: u32 = 0x0002_0000;


/// Known-bit mask of the class style family.
pub const WND_CLASS_STYLE_MASK: u32 = 0x0003_7AEB;

/// A set of class style bits.
#[derive(Debug, Clone, Copy, PartialEq, Eq, Structural)]
pub struct WndClassStyle {
    pub bits: u32,
}

impl WndClassStyle {
    /// Only known bits of the family are present.
    pub open spec fn wf(self) -> bool {
        masked(self.bits, WND_CLASS_STYLE_MASK)
    }

    pub open spec fn spec_bits(self) -> u32 {
        self.bits
    }

    /// Whether flag bit `i` is in the set.
    pub open spec fn has_bit(self, i: u32) -> bool {
        bit_set(self.bits, i)
    }

    pub open spec fn spec_empty() -> WndClassStyle {
        WndClassStyle { bits: 0 }
    }

    pub open spec fn spec_all() -> WndClassStyle {
        WndClassStyle { bits: WND_CLASS_STYLE_MASK }
    }

    pub open spec fn spec_from_bits(bits: u32) -> Option<WndClassStyle> {
        if masked(bits, WND_CLASS_STYLE_MASK) {
            Some(WndClassStyle { bits })
        } else {
            None
        }
    }

    pub open spec fn spec_truncate(bits: u32) -> WndClassStyle {
        WndClassStyle { bits: bits & WND_CLASS_STYLE_MASK }
    }

    pub open spec fn spec_union(self, other: WndClassStyle) -> WndClassStyle {
        WndClassStyle { bits: self.bits | other.bits }
    }

    pub open spec fn spec_intersection(self, other: WndClassStyle) -> WndClassStyle {
        WndClassStyle { bits: self.bits & other.bits }
    }

    pub open spec fn spec_toggle(self, other: WndClassStyle) -> WndClassStyle {
        WndClassStyle { bits: self.bits ^ other.bits }
    }

    pub open spec fn spec_difference(self, other: WndClassStyle) -> WndClassStyle {
        WndClassStyle { bits: self.bits & !other.bits }
    }

    /// Complement bounded to the known-bit mask, so that negation never
    /// introduces reserved bits.
    pub open spec fn spec_complement(self) -> WndClassStyle {
        WndClassStyle { bits: !self.bits & WND_CLASS_STYLE_MASK }
    }

    /// The empty set of flags.
    pub fn empty() -> (r: WndClassStyle)
        ensures
            r == WndClassStyle::spec_empty(),
            r.wf(),
    {
        proof {
            lemma_masked_basics(0, WND_CLASS_STYLE_MASK);
        }
        WndClassStyle { bits: 0 }
    }

    /// The set of all known flags.
    pub fn all() -> (r: WndClassStyle)
        ensures
            r == WndClassStyle::spec_all(),
            r.wf(),
    {
        proof {
            lemma_masked_basics(0, WND_CLASS_STYLE_MASK);
        }
        WndClassStyle { bits: WND_CLASS_STYLE_MASK }
    }

    /// The raw value of the flags currently stored.
    pub fn bits(&self) -> (r: u32)
        ensures
            r == self.spec_bits(),
    {
        self.bits
    }

    /// Converts from a raw value; fails exactly when a bit outside the
    /// known-bit mask is present.
    pub fn from_bits(bits: u32) -> (r: Option<WndClassStyle>)
        ensures
            r == WndClassStyle::spec_from_bits(bits),
            r is Some <==> bits & !WND_CLASS_STYLE_MASK == 0,
    {
        if bits & !WND_CLASS_STYLE_MASK != 0 {
            None
        } else {
            Some(WndClassStyle { bits })
        }
    }

    /// Converts from a raw value, dropping any unknown bits.
    pub fn from_bits_truncate(bits: u32) -> (r: WndClassStyle)
        ensures
            r == WndClassStyle::spec_truncate(bits),
            r.wf(),
    {
        proof {
            lemma_masked_basics(bits, WND_CLASS_STYLE_MASK);
        }
        WndClassStyle { bits: bits & WND_CLASS_STYLE_MASK }
    }

    /// True when no flags are stored.
    pub fn is_empty(&self) -> (r: bool)
        ensures
            r == (self.spec_bits() == 0),
    {
        self.bits == 0
    }

    /// True when every known flag is stored.
    pub fn is_all(&self) -> (r: bool)
        ensures
            r == (self.spec_bits() == WND_CLASS_STYLE_MASK),
    {
        self.bits == WND_CLASS_STYLE_MASK
    }

    /// True when the two sets share a flag.
    pub fn intersects(&self, other: WndClassStyle) -> (r: bool)
        ensures
            r == (self.spec_bits() & other.spec_bits() != 0),
    {
        self.bits & other.bits != 0
    }

    /// True when every flag of `other` is present in `self`.
    pub fn contains(&self, other: WndClassStyle) -> (r: bool)
        ensures
            r == contains_bits(self.spec_bits(), other.spec_bits()),
    {
        self.bits & other.bits == other.bits
    }

    /// Inserts the flags of `other` in place.
    pub fn insert(&mut self, other: WndClassStyle)
        requires
            old(self).wf(),
            other.wf(),
        ensures
            *final(self) == old(self).spec_union(other),
            final(self).wf(),
    {
        proof {
            lemma_union(self.bits, other.bits, WND_CLASS_STYLE_MASK);
        }
        self.bits = self.bits | other.bits;
    }

    /// Removes the flags of `other` in place.
    pub fn remove(&mut self, other: WndClassStyle)
        requires
            old(self).wf(),
            other.wf(),
        ensures
            *final(self) == old(self).spec_difference(other),
            final(self).wf(),
    {
        proof {
            lemma_difference(self.bits, other.bits, WND_CLASS_STYLE_MASK);
        }
        self.bits = self.bits & !other.bits;
    }

    /// Toggles the flags of `other` in place.
    pub fn toggle(&mut self, other: WndClassStyle)
        requires
            old(self).wf(),
            other.wf(),
        ensures
            *final(self) == old(self).spec_toggle(other),
            final(self).wf(),
    {
        proof {
            lemma_toggle(self.bits, other.bits, WND_CLASS_STYLE_MASK);
        }
        self.bits = self.bits ^ other.bits;
    }

    /// The union of the two sets.
    pub fn union(self, other: WndClassStyle) -> (r: WndClassStyle)
        requires
            self.wf(),
            other.wf(),
        ensures
            r == self.spec_union(other),
            r.wf(),
    {
        proof {
            lemma_union(self.bits, other.bits, WND_CLASS_STYLE_MASK);
        }
        WndClassStyle { bits: self.bits | other.bits }
    }

    /// The flags common to both sets.
    pub fn intersection(self, other: WndClassStyle) -> (r: WndClassStyle)
        requires
            self.wf(),
        ensures
            r == self.spec_intersection(other),
            r.wf(),
    {
        proof {
            lemma_intersection(self.bits, other.bits, WND_CLASS_STYLE_MASK);
        }
        WndClassStyle { bits: self.bits & other.bits }
    }

    /// The flags present in exactly one of the two sets.
    pub fn symmetric_difference(self, other: WndClassStyle) -> (r: WndClassStyle)
        requires
            self.wf(),
            other.wf(),
        ensures
            r == self.spec_toggle(other),
            r.wf(),
    {
        proof {
            lemma_toggle(self.bits, other.bits, WND_CLASS_STYLE_MASK);
        }
        WndClassStyle { bits: self.bits ^ other.bits }
    }

    /// The flags of `self` that are absent from `other`.
    pub fn difference(self, other: WndClassStyle) -> (r: WndClassStyle)
        requires
            self.wf(),
            other.wf(),
        ensures
            r == self.spec_difference(other),
            r.wf(),
    {
        proof {
            lemma_difference(self.bits, other.bits, WND_CLASS_STYLE_MASK);
        }
        WndClassStyle { bits: self.bits & !other.bits }
    }

    /// The known flags absent from `self`.
    pub fn complement(self) -> (r: WndClassStyle)
        requires
            self.wf(),
        ensures
            r == self.spec_complement(),
            r.wf(),
    {
        proof {
            lemma_complement(self.bits, WND_CLASS_STYLE_MASK);
        }
        WndClassStyle { bits: !self.bits & WND_CLASS_STYLE_MASK }
    }
}

/// Bitmask laws of the class style family: the union holds every flag of either
/// side and no others, the intersection exactly the common flags, the
/// difference exactly the left side's flags absent from the right, and
/// the difference agrees with intersecting against the bounded
/// complement.
pub proof fn lemma_wnd_class_style_set_ops(a: WndClassStyle, b: WndClassStyle, i: u32)
    requires
        a.wf(),
        b.wf(),
        i < 32,
    ensures
        a.spec_union(b).has_bit(i) == (a.has_bit(i) || b.has_bit(i)),
        a.spec_intersection(b).has_bit(i) == (a.has_bit(i) && b.has_bit(i)),
        a.spec_difference(b).has_bit(i) == (a.has_bit(i) && !b.has_bit(i)),
        a.spec_toggle(b).has_bit(i) == (a.has_bit(i) != b.has_bit(i)),
        a.spec_difference(b) == a.spec_intersection(b.spec_complement()),
        a.spec_union(b).wf() && a.spec_intersection(b).wf() && a.spec_difference(b).wf()
            && a.spec_toggle(b).wf(),
{
    lemma_union(a.bits, b.bits, WND_CLASS_STYLE_MASK);
    lemma_intersection(a.bits, b.bits, WND_CLASS_STYLE_MASK);
    lemma_difference(a.bits, b.bits, WND_CLASS_STYLE_MASK);
    lemma_toggle(a.bits, b.bits, WND_CLASS_STYLE_MASK);
}

/// The bounded complement is an involution on well-formed class style sets.
pub proof fn lemma_wnd_class_style_complement_involution(a: WndClassStyle)
    requires
        a.wf(),
    ensures
        a.spec_complement().spec_complement() == a,
        a.spec_complement().wf(),
{
    lemma_complement(a.bits, WND_CLASS_STYLE_MASK);
}

/// Round trip: every well-formed class style set survives conversion through
/// its raw bits.
pub proof fn lemma_wnd_class_style_round_trip(a: WndClassStyle)
    requires
        a.wf(),
    ensures
        WndClassStyle::spec_from_bits(a.spec_bits()) == Some(a),
{
}

/// Truncating any raw value and its bitwise complement and uniting the
/// two gives the full class style set.
pub proof fn lemma_wnd_class_style_truncate_union(x: u32)
    ensures
        WndClassStyle::spec_truncate(x).spec_union(WndClassStyle::spec_truncate(!x)) == WndClassStyle::spec_all(),
{
    lemma_truncate_union(x, WND_CLASS_STYLE_MASK);
}

/// The native call a registered class's teardown must make: unregister
/// the class named by this atom under this module instance.
#[derive(Debug, Clone, Copy, PartialEq, Eq, Structural)]
pub struct UnregisterClassCall {
    pub atom: u16,
    pub instance: usize,
}

/// A registered window class, identified by its atom and the module
/// instance it was registered under.
#[derive(Debug)]
pub struct WndClass {
    atom: u16,
    instance: usize,
}

impl WndClass {
    pub closed spec fn spec_atom(self) -> u16 {
        self.atom
    }

    pub closed spec fn spec_instance(self) -> usize {
        self.instance
    }

    /// A registered class carries a nonzero atom.
    pub open spec fn wf(self) -> bool {
        self.spec_atom() != 0
    }

    /// Starts the typed builder for a new window class.
    pub fn new() -> (r: WndClassBuilder)
        ensures
            r == WndClassBuilder::spec_new(),
    {
        WndClassBuilder::empty_builder()
    }

    /// Decodes the native registration call's result: a zero atom means
    /// failure with the platform error code.
    pub fn register_raw(atom: u16, instance: usize, err_code: u32) -> (r: Result<
        WndClass,
        Error,
    >)
        ensures
            atom == 0 ==> r == Result::<WndClass, Error>::Err(Error::Os(err_code)),
            atom != 0 ==> (r matches Ok(c) && c.spec_atom() == atom && c.spec_instance()
                == instance && c.wf()),
    {
        if atom == 0 {
            last_error(err_code)
        } else {
            Ok(WndClass { atom, instance })
        }
    }
}

impl TryDrop for WndClass {
    type Action = UnregisterClassCall;

    open spec fn try_drop_req(&self) -> bool {
        true
    }

    open spec fn spec_dispose_target(&self) -> UnregisterClassCall {
        UnregisterClassCall { atom: self.spec_atom(), instance: self.spec_instance() }
    }

    fn try_drop(self) -> (r: UnregisterClassCall) {
        UnregisterClassCall { atom: self.atom, instance: self.instance }
    }
}

/// The mathematical shape of a window-class identity.
pub struct WndClassIdView {
    pub id: ResIdView,
    pub instance: usize,
}

/// Identifies a window class to the creation call: a registered class's
/// atom under its instance, or a class name.
#[derive(Debug)]
pub struct WndClassId {
    id: ResId,
    instance: usize,
}

impl View for WndClassId {
    type V = WndClassIdView;

    closed spec fn view(&self) -> WndClassIdView {
        WndClassIdView { id: self.id@, instance: self.instance }
    }
}

impl WndClassId {
    /// The class identity part.
    pub fn class_name(&self) -> (r: &ResId)
        ensures
            r@ == self@.id,
    {
        &self.id
    }

    /// The module instance part.
    pub fn instance(&self) -> (r: usize)
        ensures
            r == self@.instance,
    {
        self.instance
    }

    /// Takes the identity apart.
    pub fn unpack(self) -> (r: (ResId, usize))
        ensures
            r.0@ == self@.id,
            r.1 == self@.instance,
    {
        let WndClassId { id, instance } = self;
        (id, instance)
    }
}

impl<'a> AsId<WndClassId> for &'a WndClass {
    type IdThunk = &'a WndClass;

    open spec fn spec_id_view(self) -> WndClassIdView {
        WndClassIdView { id: ResIdView::Ordinal(self.spec_atom()), instance: self.spec_instance() }
    }

    fn into_id_thunk(self) -> (r: &'a WndClass) {
        self
    }
}

impl<'a> IdThunk<WndClassId> for &'a WndClass {
    open spec fn spec_id_view(&self) -> WndClassIdView {
        WndClassIdView { id: ResIdView::Ordinal(self.spec_atom()), instance: self.spec_instance() }
    }

    fn as_id(&self) -> (r: WndClassId) {
        WndClassId { id: ResId::Ordinal(self.atom), instance: self.instance }
    }
}

impl<'a> AsId<WndClassId> for &'a str {
    type IdThunk = WCString;

    open spec fn spec_id_view(self) -> WndClassIdView {
        WndClassIdView { id: ResIdView::Name(wide_null(self@)), instance: 0 }
    }

    fn into_id_thunk(self) -> (r: WCString) {
        WCString::from_str(self)
    }
}

impl IdThunk<WndClassId> for WCString {
    open spec fn spec_id_view(&self) -> WndClassIdView {
        WndClassIdView { id: ResIdView::Name(self@), instance: 0 }
    }

    fn as_id(&self) -> (r: WndClassId) {
        WndClassId { id: ResId::Name(slice_to_vec(self.as_ptr())), instance: 0 }
    }
}

/// The complete parameter record of one native class-registration call,
/// assembled by the builder; the fields the builder never fills stay at
/// the platform's zero defaults.
#[derive(Debug)]
pub struct WndClassParams {
    pub style: u32,
    pub wnd_proc: usize,
    pub cls_extra: i32,
    pub wnd_extra: i32,
    pub instance: usize,
    pub icon: usize,
    pub cursor: usize,
    pub background: usize,
    pub menu_name: usize,
    pub class_name: WCString,
    pub icon_sm: usize,
}

/// Accumulates the configuration of a window class to be registered.
/// Registration demands the required fields — window procedure, module
/// instance and class name.
#[derive(Debug)]
pub struct WndClassBuilder {
    pub style: Option<WndClassStyle>,
    pub wnd_proc: Option<usize>,
    pub cls_extra: Option<usize>,
    pub wnd_extra: Option<usize>,
    pub instance: Option<usize>,
    pub icon: Option<usize>,
    pub cursor: Option<usize>,
    pub background: Option<usize>,
    pub class_name: Option<WCString>,
}

impl WndClassBuilder {
    /// The builder with nothing set.
    pub open spec fn spec_new() -> WndClassBuilder {
        WndClassBuilder {
            style: None,
            wnd_proc: None,
            cls_extra: None,
            wnd_extra: None,
            instance: None,
            icon: None,
            cursor: None,
            background: None,
            class_name: None,
        }
    }

    /// Every required field has been supplied.
    pub open spec fn complete(self) -> bool {
        self.wnd_proc is Some && self.instance is Some && self.class_name is Some
    }

    pub(crate) fn empty_builder() -> (r: WndClassBuilder)
        ensures
            r == WndClassBuilder::spec_new(),
    {
        WndClassBuilder {
            style: None,
            wnd_proc: None,
            cls_extra: None,
            wnd_extra: None,
            instance: None,
            icon: None,
            cursor: None,
            background: None,
            class_name: None,
        }
    }

    /// Sets the class style flags.
    pub fn style(self, style: WndClassStyle) -> (r: WndClassBuilder)
        ensures
            r == (WndClassBuilder { style: Some(style), ..self }),
    {
        WndClassBuilder { style: Some(style), ..self }
    }

    /// Names the window procedure, as the callback address the shell
    /// registered.
    pub fn wnd_proc(self, wnd_proc: usize) -> (r: WndClassBuilder)
        ensures
            r == (WndClassBuilder { wnd_proc: Some(wnd_proc), ..self }),
    {
        WndClassBuilder { wnd_proc: Some(wnd_proc), ..self }
    }

    /// Names the owning module instance.
    pub fn instance(self, instance: usize) -> (r: WndClassBuilder)
        ensures
            r == (WndClassBuilder { instance: Some(instance), ..self }),
    {
        WndClassBuilder { instance: Some(instance), ..self }
    }

    /// Hands the class an icon; the class takes ownership, so the
    /// wrapper is consumed and its own teardown disarmed.
    pub fn icon<I: IntoRaw<Raw = usize>>(self, icon: I) -> (r: WndClassBuilder)
        requires
            icon.as_raw_req(),
        ensures
            r == (WndClassBuilder { icon: Some(icon.spec_raw()), ..self }),
    {
        let raw = icon.into_raw();
        WndClassBuilder { icon: Some(raw), ..self }
    }

    /// Hands the class a cursor; ownership moves as for the icon.
    pub fn cursor<C: IntoRaw<Raw = usize>>(self, cursor: C) -> (r: WndClassBuilder)
        requires
            cursor.as_raw_req(),
        ensures
            r == (WndClassBuilder { cursor: Some(cursor.spec_raw()), ..self }),
    {
        let raw = cursor.into_raw();
        WndClassBuilder { cursor: Some(raw), ..self }
    }

    /// Sets the class name.
    pub fn class_name(self, class_name: &str) -> (r: WndClassBuilder)
        ensures
            r.class_name matches Some(c) && c@ == wide_null(class_name@),
            r == (WndClassBuilder { class_name: r.class_name, ..self }),
    {
        WndClassBuilder { class_name: Some(WCString::from_str(class_name)), ..self }
    }

    /// Hands the class a background brush; ownership moves as for the
    /// icon.
    pub fn background<B: IntoRaw<Raw = usize>>(self, background: B) -> (r: WndClassBuilder)
        requires
            background.as_raw_req(),
        ensures
            r == (WndClassBuilder { background: Some(background.spec_raw()), ..self }),
    {
        let raw = background.into_raw();
        WndClassBuilder { background: Some(raw), ..self }
    }

    /// The registration record this builder stands for once complete.
    pub open spec fn spec_params(self) -> WndClassParams {
        WndClassParams {
            style: if self.style is Some {
                self.style->Some_0.spec_bits()
            } else {
                0
            },
            wnd_proc: self.wnd_proc->Some_0,
            cls_extra: if self.cls_extra is Some {
                self.cls_extra->Some_0 as i32
            } else {
                0
            },
            wnd_extra: if self.wnd_extra is Some {
                self.wnd_extra->Some_0 as i32
            } else {
                0
            },
            instance: self.instance->Some_0,
            icon: if self.icon is Some {
                self.icon->Some_0
            } else {
                0
            },
            cursor: if self.cursor is Some {
                self.cursor->Some_0
            } else {
                0
            },
            background: if self.background is Some {
                self.background->Some_0
            } else {
                0
            },
            menu_name: 0,
            class_name: self.class_name->Some_0,
            icon_sm: 0,
        }
    }

    /// The extra-bytes counts fit the record's fields.
    pub open spec fn extras_fit(self) -> bool {
        (self.cls_extra is Some ==> self.cls_extra->Some_0 <= i32::MAX) && (self.wnd_extra
            is Some ==> self.wnd_extra->Some_0 <= i32::MAX)
    }

    /// Finalizes the builder into the native registration call's
    /// parameter record.  Reachable only once every required setter has
    /// been applied: the caller must prove completeness.  Fails exactly
    /// when an extra-bytes count does not fit the record.
    pub fn register(self) -> (r: Result<WndClassParams, Error>)
        requires
            self.complete(),
        ensures
            self.extras_fit() ==> (r matches Ok(p) && p == self.spec_params()),
            !self.extras_fit() ==> r is Err,
    {
        let WndClassBuilder {
            style,
            wnd_proc,
            cls_extra,
            wnd_extra,
            instance,
            icon,
            cursor,
            background,
            class_name,
        } = self;
        let style = match style {
            Some(s) => s.bits,
            None => 0,
        };
        let wnd_proc = match wnd_proc {
            Some(p) => p,
            None => unreached(),
        };
        let cls_extra = match usize_2_int(
            match cls_extra {
                Some(v) => v,
                None => 0,
            },
        ) {
            Ok(v) => v,
            Err(e) => { return Err(e) },
        };
        let wnd_extra = match usize_2_int(
            match wnd_extra {
                Some(v) => v,
                None => 0,
            },
        ) {
            Ok(v) => v,
            Err(e) => { return Err(e) },
        };
        let instance = match instance {
            Some(i) => i,
            None => unreached(),
        };
        let class_name = match class_name {
            Some(c) => c,
            None => unreached(),
        };
        Ok(
            WndClassParams {
                style,
                wnd_proc,
                cls_extra,
                wnd_extra,
                instance,
                icon: match icon {
                    Some(i) => i,
                    None => 0,
                },
                cursor: match cursor {
                    Some(c) => c,
                    None => 0,
                },
                background: match background {
                    Some(b) => b,
                    None => 0,
                },
                menu_name: 0,
                class_name,
                icon_sm: 0,
            },
        )
    }

    /// Finalizes if complete, and otherwise says which required field is
    /// missing, deterministically: the window procedure is reported
    /// first, then the instance, then the class name.
    pub fn try_register(self) -> (r: Result<WndClassParams, Error>)
        ensures
            self.complete() && self.extras_fit() ==> (r matches Ok(p) && p
                == self.spec_params()),
            !self.complete() ==> r is Err,
            self.wnd_proc is None ==> (r matches Err(e) && e matches Error::Other(m) && m@
                == "missing wnd_class"@),
            self.wnd_proc is Some && self.instance is None ==> (r matches Err(e)
                && e matches Error::Other(m) && m@ == "missing instance"@),
            self.wnd_proc is Some && self.instance is Some && self.class_name is None
                ==> (r matches Err(e) && e matches Error::Other(m) && m@
                == "missing class_name"@),
    {
        if self.wnd_proc.is_none() {
            return crate::other_error("missing wnd_class");
        }
        if self.instance.is_none() {
            return crate::other_error("missing instance");
        }
        if self.class_name.is_none() {
            return crate::other_error("missing class_name");
        }
        self.register()
    }
}

/// Converts a byte count to the signed field the registration record
/// uses; fails exactly on values that do not fit.
pub fn usize_2_int(v: usize) -> (r: Result<i32, Error>)
    ensures
        v <= i32::MAX ==> r == Result::<i32, Error>::Ok(v as i32),
        v > i32::MAX ==> (r matches Err(e) && e is Other),
{
    if v <= 0x7FFF_FFFF {
        Ok(v as i32)
    } else {
        crate::other_error("value does not fit in an i32")
    }
}

} // verus!
