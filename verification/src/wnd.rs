//! Windows and their typed builder.
//!
//! The native creation call itself lives in the unverified shell; this
//! module holds the window style family, the show-command repertoire,
//! the builder that assembles the creation parameters, and the decoding
//! of the native calls' results.

use vstd::prelude::*;
use vstd::pervasive::unreached;

use crate::Error;
use crate::last_error;
use crate::flags::bit_set;
use crate::flags::contains_bits;
use crate::flags::lemma_complement;
use crate::flags::lemma_difference;
use crate::flags::lemma_intersection;
use crate::flags::lemma_masked_basics;
use crate::flags::lemma_toggle;
use crate::flags::lemma_truncate_union;
use crate::flags::lemma_union;
use crate::flags::masked;
use crate::handle::DisposeAction;
use crate::handle::Handle;
use crate::traits::AsId;
use crate::traits::AsRaw;
use crate::traits::IdThunk;
use crate::traits::TryDrop;
use crate::util::WCString;
use crate::wnd_class::WndClassId;

verus! {

pub const WS_BORDER: u32 = 0x0080_0000;

pub const WS_CAPTION: u32 = 0x00C0_0000;

pub const WS_CHILD: u32 = 0x4000_0000;

pub const WS_CHILDWINDOW: u32 = 0x4000_0000;

pub const WS_CLIPCHILDREN: u32 = 0x0200_0000;

pub const WS_CLIPSIBLINGS: u32 = 0x0400_0000;

pub const WS_DISABLED: u32 = 0x0800_0000;

pub const WS_DLGFRAME: u32 = 0x0040_0000;

pub const WS_GROUP: u32 = 0x0002_0000;

pub const WS_HSCROLL: u32 = 0x0010_0000;

pub const WS_ICONIC: u32 = 0x2000_0000;

pub const WS_MAXIMIZE: u32 = 0x0100_0000;

pub const WS_MAXIMIZEBOX: u32 = 0x0001_0000;

pub const WS_MINIMIZE: u32 = 0x2000_0000;

pub const WS_MINIMIZEBOX: u32 = 0x0002_0000;

pub const WS_OVERLAPPED: u32 = 0x0000_0000;

pub const WS_OVERLAPPEDWINDOW: u32 = 0x00CF_0000;

pub const WS_POPUP: u32 = 0x8000_0000;

pub const WS_POPUPWINDOW: u32 = 0x8088_0000;

pub const WS_SIZEBOX: u32 = 0x0004_0000;

pub const WS_SYSMENU: u32 = 0x0008_0000;

pub const WS_TABSTOP: u32 = 0x0001_0000;

pub const WS_THICKFRAME: u32 = 0x0004_0000;

pub const WS_TILED: u32 = 0x0000_0000;

pub const WS_TILEDWINDOW: u32 = 0x00CF_0000;

pub const WS_VISIBLE: u32 = 0x1000_0000;

pub const WS_VSCROLL: u32 = 0x0020_0000;

/// The position or size value that lets the system choose a default.
pub const CW_USEDEFAULT: i32 = -2147483648;


/// Known-bit mask of the window style family.
pub const WND_STYLE_MASK: u32 = 0xFFFF_0000;

/// A set of window style bits.
#[derive(Debug, Clone, Copy, PartialEq, Eq, Structural)]
pub struct WndStyle {
    pub bits: u32,
}

impl WndStyle {
    /// Only known bits of the family are present.
    pub open spec fn wf(self) -> bool {
        masked(self.bits, WND_STYLE_MASK)
    }

    pub open spec fn spec_bits(self) -> u32 {
        self.bits
    }

    /// Whether flag bit `i` is in the set.
    pub open spec fn has_bit(self, i: u32) -> bool {
        bit_set(self.bits, i)
    }

    pub open spec fn spec_empty() -> WndStyle {
        WndStyle { bits: 0 }
    }

    pub open spec fn spec_all() -> WndStyle {
        WndStyle { bits: WND_STYLE_MASK }
    }

    pub open spec fn spec_from_bits(bits: u32) -> Option<WndStyle> {
        if masked(bits, WND_STYLE_MASK) {
            Some(WndStyle { bits })
        } else {
            None
        }
    }

    pub open spec fn spec_truncate(bits: u32) -> WndStyle {
        WndStyle { bits: bits & WND_STYLE_MASK }
    }

    pub open spec fn spec_union(self, other: WndStyle) -> WndStyle {
        WndStyle { bits: self.bits | other.bits }
    }

    pub open spec fn spec_intersection(self, other: WndStyle) -> WndStyle {
        WndStyle { bits: self.bits & other.bits }
    }

    pub open spec fn spec_toggle(self, other: WndStyle) -> WndStyle {
        WndStyle { bits: self.bits ^ other.bits }
    }

    pub open spec fn spec_difference(self, other: WndStyle) -> WndStyle {
        WndStyle { bits: self.bits & !other.bits }
    }

    /// Complement bounded to the known-bit mask, so that negation never
    /// introduces reserved bits.
    pub open spec fn spec_complement(self) -> WndStyle {
        WndStyle { bits: !self.bits & WND_STYLE_MASK }
    }

    /// The empty set of flags.
    pub fn empty() -> (r: WndStyle)
        ensures
            r == WndStyle::spec_empty(),
            r.wf(),
    {
        proof {
            lemma_masked_basics(0, WND_STYLE_MASK);
        }
        WndStyle { bits: 0 }
    }

    /// The set of all known flags.
    pub fn all() -> (r: WndStyle)
        ensures
            r == WndStyle::spec_all(),
            r.wf(),
    {
        proof {
            lemma_masked_basics(0, WND_STYLE_MASK);
        }
        WndStyle { bits: WND_STYLE_MASK }
    }

    /// The raw value of the flags currently stored.
    pub fn bits(&self) -> (r: u32)
        ensures
            r == self.spec_bits(),
    {
        self.bits
    }

    /// Converts from a raw value; fails exactly when a bit outside the
    /// known-bit mask is present.
    pub fn from_bits(bits: u32) -> (r: Option<WndStyle>)
        ensures
            r == WndStyle::spec_from_bits(bits),
            r is Some <==> bits & !WND_STYLE_MASK == 0,
    {
        if bits & !WND_STYLE_MASK != 0 {
            None
        } else {
            Some(WndStyle { bits })
        }
    }

    /// Converts from a raw value, dropping any unknown bits.
    pub fn from_bits_truncate(bits: u32) -> (r: WndStyle)
        ensures
            r == WndStyle::spec_truncate(bits),
            r.wf(),
    {
        proof {
            lemma_masked_basics(bits, WND_STYLE_MASK);
        }
        WndStyle { bits: bits & WND_STYLE_MASK }
    }

    /// True when no flags are stored.
    pub fn is_empty(&self) -> (r: bool)
        ensures
            r == (self.spec_bits() == 0),
    {
        self.bits == 0
    }

    /// True when every known flag is stored.
    pub fn is_all(&self) -> (r: bool)
        ensures
            r == (self.spec_bits() == WND_STYLE_MASK),
    {
        self.bits == WND_STYLE_MASK
    }

    /// True when the two sets share a flag.
    pub fn intersects(&self, other: WndStyle) -> (r: bool)
        ensures
            r == (self.spec_bits() & other.spec_bits() != 0),
    {
        self.bits & other.bits != 0
    }

    /// True when every flag of `other` is present in `self`.
    pub fn contains(&self, other: WndStyle) -> (r: bool)
        ensures
            r == contains_bits(self.spec_bits(), other.spec_bits()),
    {
        self.bits & other.bits == other.bits
    }

    /// Inserts the flags of `other` in place.
    pub fn insert(&mut self, other: WndStyle)
        requires
            old(self).wf(),
            other.wf(),
        ensures
            *final(self) == old(self).spec_union(other),
            final(self).wf(),
    {
        proof {
            lemma_union(self.bits, other.bits, WND_STYLE_MASK);
        }
        self.bits = self.bits | other.bits;
    }

    /// Removes the flags of `other` in place.
    pub fn remove(&mut self, other: WndStyle)
        requires
            old(self).wf(),
            other.wf(),
        ensures
            *final(self) == old(self).spec_difference(other),
            final(self).wf(),
    {
        proof {
            lemma_difference(self.bits, other.bits, WND_STYLE_MASK);
        }
        self.bits = self.bits & !other.bits;
    }

    /// Toggles the flags of `other` in place.
    pub fn toggle(&mut self, other: WndStyle)
        requires
            old(self).wf(),
            other.wf(),
        ensures
            *final(self) == old(self).spec_toggle(other),
            final(self).wf(),
    {
        proof {
            lemma_toggle(self.bits, other.bits, WND_STYLE_MASK);
        }
        self.bits = self.bits ^ other.bits;
    }

    /// The union of the two sets.
    pub fn union(self, other: WndStyle) -> (r: WndStyle)
        requires
            self.wf(),
            other.wf(),
        ensures
            r == self.spec_union(other),
            r.wf(),
    {
        proof {
            lemma_union(self.bits, other.bits, WND_STYLE_MASK);
        }
        WndStyle { bits: self.bits | other.bits }
    }

    /// The flags common to both sets.
    pub fn intersection(self, other: WndStyle) -> (r: WndStyle)
        requires
            self.wf(),
        ensures
            r == self.spec_intersection(other),
            r.wf(),
    {
        proof {
            lemma_intersection(self.bits, other.bits, WND_STYLE_MASK);
        }
        WndStyle { bits: self.bits & other.bits }
    }

    /// The flags present in exactly one of the two sets.
    pub fn symmetric_difference(self, other: WndStyle) -> (r: WndStyle)
        requires
            self.wf(),
            other.wf(),
        ensures
            r == self.spec_toggle(other),
            r.wf(),
    {
        proof {
            lemma_toggle(self.bits, other.bits, WND_STYLE_MASK);
        }
        WndStyle { bits: self.bits ^ other.bits }
    }

    /// The flags of `self` that are absent from `other`.
    pub fn difference(self, other: WndStyle) -> (r: WndStyle)
        requires
            self.wf(),
            other.wf(),
        ensures
            r == self.spec_difference(other),
            r.wf(),
    {
        proof {
            lemma_difference(self.bits, other.bits, WND_STYLE_MASK);
        }
        WndStyle { bits: self.bits & !other.bits }
    }

    /// The known flags absent from `self`.
    pub fn complement(self) -> (r: WndStyle)
        requires
            self.wf(),
        ensures
            r == self.spec_complement(),
            r.wf(),
    {
        proof {
            lemma_complement(self.bits, WND_STYLE_MASK);
        }
        WndStyle { bits: !self.bits & WND_STYLE_MASK }
    }
}

/// Bitmask laws of the window style family: the union holds every flag of either
/// side and no others, the intersection exactly the common flags, the
/// difference exactly the left side's flags absent from the right, and
/// the difference agrees with intersecting against the bounded
/// complement.
pub proof fn lemma_wnd_style_set_ops(a: WndStyle, b: WndStyle, i: u32)
    requires
        a.wf(),
        b.wf(),
        i < 32,
    ensures
        a.spec_union(b).has_bit(i) == (a.has_bit(i) || b.has_bit(i)),
        a.spec_intersection(b).has_bit(i) == (a.has_bit(i) && b.has_bit(i)),
        a.spec_difference(b).has_bit(i) == (a.has_bit(i) && !b.has_bit(i)),
        a.spec_toggle(b).has_bit(i) == (a.has_bit(i) != b.has_bit(i)),
        a.spec_difference(b) == a.spec_intersection(b.spec_complement()),
        a.spec_union(b).wf() && a.spec_intersection(b).wf() && a.spec_difference(b).wf()
            && a.spec_toggle(b).wf(),
{
    lemma_union(a.bits, b.bits, WND_STYLE_MASK);
    lemma_intersection(a.bits, b.bits, WND_STYLE_MASK);
    lemma_difference(a.bits, b.bits, WND_STYLE_MASK);
    lemma_toggle(a.bits, b.bits, WND_STYLE_MASK);
}

/// The bounded complement is an involution on well-formed window style sets.
pub proof fn lemma_wnd_style_complement_involution(a: WndStyle)
    requires
        a.wf(),
    ensures
        a.spec_complement().spec_complement() == a,
        a.spec_complement().wf(),
{
    lemma_complement(a.bits, WND_STYLE_MASK);
}

/// Round trip: every well-formed window style set survives conversion through
/// its raw bits.
pub proof fn lemma_wnd_style_round_trip(a: WndStyle)
    requires
        a.wf(),
    ensures
        WndStyle::spec_from_bits(a.spec_bits()) == Some(a),
{
}

/// Truncating any raw value and its bitwise complement and uniting the
/// two gives the full window style set.
pub proof fn lemma_wnd_style_truncate_union(x: u32)
    ensures
        WndStyle::spec_truncate(x).spec_union(WndStyle::spec_truncate(!x)) == WndStyle::spec_all(),
{
    lemma_truncate_union(x, WND_STYLE_MASK);
}

/// The show commands a window accepts.
#[derive(Debug, Clone, Copy, PartialEq, Eq, Structural)]
pub enum Show {
    Hide,
    ShowNormal,
    ShowMinimized,
    Maximize,
    ShowNoActivate,
    Show,
    Minimize,
    ShowMinNoActive,
    ShowNA,
    Restore,
    ShowDefault,
    ForceMinimize,
}

impl Show {
    /// The native numeric command of this variant.
    pub open spec fn spec_repr(self) -> i32 {
        match self {
            Show::Hide => 0,
            Show::ShowNormal => 1,
            Show::ShowMinimized => 2,
            Show::Maximize => 3,
            Show::ShowNoActivate => 4,
            Show::Show => 5,
            Show::Minimize => 6,
            Show::ShowMinNoActive => 7,
            Show::ShowNA => 8,
            Show::Restore => 9,
            Show::ShowDefault => 10,
            Show::ForceMinimize => 11,
        }
    }

    /// Converts to the native numeric command.
    pub fn into_repr(self) -> (r: i32)
        ensures
            r == self.spec_repr(),
    {
        match self {
            Show::Hide => 0,
            Show::ShowNormal => 1,
            Show::ShowMinimized => 2,
            Show::Maximize => 3,
            Show::ShowNoActivate => 4,
            Show::Show => 5,
            Show::Minimize => 6,
            Show::ShowMinNoActive => 7,
            Show::ShowNA => 8,
            Show::Restore => 9,
            Show::ShowDefault => 10,
            Show::ForceMinimize => 11,
        }
    }

    /// Converts from the native numeric command; fails exactly on values
    /// no variant carries.
    pub fn try_from_repr(v: i32) -> (r: Option<Show>)
        ensures
            r matches Some(s) ==> s.spec_repr() == v,
            r is None <==> !(0 <= v <= 11),
    {
        match v {
            0 => Some(Show::Hide),
            1 => Some(Show::ShowNormal),
            2 => Some(Show::ShowMinimized),
            3 => Some(Show::Maximize),
            4 => Some(Show::ShowNoActivate),
            5 => Some(Show::Show),
            6 => Some(Show::Minimize),
            7 => Some(Show::ShowMinNoActive),
            8 => Some(Show::ShowNA),
            9 => Some(Show::Restore),
            10 => Some(Show::ShowDefault),
            11 => Some(Show::ForceMinimize),
            _ => None,
        }
    }
}

/// Whether a window was visible before a show command.
#[derive(Debug, Clone, Copy, PartialEq, Eq, Structural)]
pub enum WasVisible {
    Yes,
    No,
}

impl WasVisible {
    /// Builds the answer from a truth value.
    pub fn from_bool(v: bool) -> (r: WasVisible)
        ensures
            r == (if v {
                WasVisible::Yes
            } else {
                WasVisible::No
            }),
    {
        if v {
            WasVisible::Yes
        } else {
            WasVisible::No
        }
    }

    /// The truth value of the answer.
    pub fn to_bool(self) -> (r: bool)
        ensures
            r == (self is Yes),
    {
        match self {
            WasVisible::Yes => true,
            WasVisible::No => false,
        }
    }
}

/// Decodes the native show call's report: zero means the window was not
/// visible before.
pub fn show_outcome(status: i32) -> (r: WasVisible)
    ensures
        r == (if status == 0 {
            WasVisible::No
        } else {
            WasVisible::Yes
        }),
{
    if status == 0 {
        WasVisible::No
    } else {
        WasVisible::Yes
    }
}

/// An owned top-level or child window.
#[derive(Debug)]
pub struct Wnd {
    h: Handle,
}

impl Wnd {
    /// A window wrapper always owns its handle outright.
    pub open spec fn wf(self) -> bool {
        self.handle().wf() && !self.handle().is_shared()
    }

    pub closed spec fn handle(self) -> Handle {
        self.h
    }

    pub open spec fn spec_raw_of(self) -> usize {
        self.handle().spec_raw()
    }

    /// Starts the typed builder for a new window.
    pub fn new() -> (r: WndBuilder)
        ensures
            r == WndBuilder::spec_new(),
    {
        WndBuilder::empty_builder()
    }

    /// Decodes the native creation call's result: a null handle means
    /// failure with the platform error code, anything else is the new
    /// window, owned and armed.
    pub fn create_raw(raw: usize, err_code: u32) -> (r: Result<Wnd, Error>)
        ensures
            raw == 0 ==> r == Result::<Wnd, Error>::Err(Error::Os(err_code)),
            raw != 0 ==> (r matches Ok(w) && w.spec_raw_of() == raw && w.wf()
                && w.handle().is_armed()),
    {
        if raw == 0 {
            last_error(err_code)
        } else {
            Ok(Wnd { h: Handle::acquired(raw, false) })
        }
    }
}

impl AsRaw for Wnd {
    type Raw = usize;

    open spec fn spec_raw(&self) -> usize {
        self.handle().spec_raw()
    }

    open spec fn as_raw_req(&self) -> bool {
        self.handle().is_armed() && self.handle().wf()
    }

    fn as_raw(&self) -> (r: usize) {
        self.h.as_raw()
    }
}

impl TryDrop for Wnd {
    type Action = DisposeAction;

    open spec fn try_drop_req(&self) -> bool {
        self.wf()
    }

    open spec fn spec_dispose_target(&self) -> DisposeAction {
        self.handle().dispose_target()
    }

    fn try_drop(self) -> (r: DisposeAction) {
        let mut h = self.h;
        h.dispose()
    }
}

/// The complete parameter record of one native window-creation call,
/// assembled by the builder.
#[derive(Debug)]
pub struct CreateWindowParams {
    pub ex_style: u32,
    pub class_id: WndClassId,
    pub window_name: WCString,
    pub style: u32,
    pub x: i32,
    pub y: i32,
    pub width: i32,
    pub height: i32,
    pub wnd_parent: usize,
    pub menu: usize,
    pub param: usize,
}

/// Accumulates the configuration of a window to be created.  The
/// creation step demands that the required fields — class, name and
/// style — have been supplied; the optional ones fall back to the
/// platform's defaults.
#[derive(Debug)]
pub struct WndBuilder {
    pub class_name: Option<WndClassId>,
    pub window_name: Option<WCString>,
    pub style: Option<WndStyle>,
    pub x: Option<i32>,
    pub y: Option<i32>,
    pub width: Option<i32>,
    pub height: Option<i32>,
    pub wnd_parent: Option<usize>,
    pub menu: Option<usize>,
    pub param: Option<usize>,
}

impl WndBuilder {
    /// The builder with nothing set.
    pub open spec fn spec_new() -> WndBuilder {
        WndBuilder {
            class_name: None,
            window_name: None,
            style: None,
            x: None,
            y: None,
            width: None,
            height: None,
            wnd_parent: None,
            menu: None,
            param: None,
        }
    }

    /// Every required field has been supplied.
    pub open spec fn complete(self) -> bool {
        self.class_name is Some && self.window_name is Some && self.style is Some
    }

    pub(crate) fn empty_builder() -> (r: WndBuilder)
        ensures
            r == WndBuilder::spec_new(),
    {
        WndBuilder {
            class_name: None,
            window_name: None,
            style: None,
            x: None,
            y: None,
            width: None,
            height: None,
            wnd_parent: None,
            menu: None,
            param: None,
        }
    }

    /// Names the window class, by anything that can identify one.
    pub fn class_name<T: AsId<WndClassId>>(self, value: T) -> (r: WndBuilder)
        ensures
            r.class_name matches Some(c) && c@ == value.spec_id_view(),
            r == (WndBuilder { class_name: r.class_name, ..self }),
    {
        let thunk = value.into_id_thunk();
        let id = thunk.as_id();
        WndBuilder { class_name: Some(id), ..self }
    }

    /// Sets the window's title text.
    pub fn window_name(self, value: &str) -> (r: WndBuilder)
        ensures
            r.window_name matches Some(w) && w@ == crate::util::wide_null(value@),
            r == (WndBuilder { window_name: r.window_name, ..self }),
    {
        WndBuilder { window_name: Some(WCString::from_str(value)), ..self }
    }

    /// Sets the window style flags.
    pub fn style(self, value: WndStyle) -> (r: WndBuilder)
        ensures
            r == (WndBuilder { style: Some(value), ..self }),
    {
        WndBuilder { style: Some(value), ..self }
    }

    /// Sets the left position.
    pub fn x(self, value: i32) -> (r: WndBuilder)
        ensures
            r == (WndBuilder { x: Some(value), ..self }),
    {
        WndBuilder { x: Some(value), ..self }
    }

    /// Sets the top position.
    pub fn y(self, value: i32) -> (r: WndBuilder)
        ensures
            r == (WndBuilder { y: Some(value), ..self }),
    {
        WndBuilder { y: Some(value), ..self }
    }

    /// Sets the width.
    pub fn width(self, value: i32) -> (r: WndBuilder)
        ensures
            r == (WndBuilder { width: Some(value), ..self }),
    {
        WndBuilder { width: Some(value), ..self }
    }

    /// Sets the height.
    pub fn height(self, value: i32) -> (r: WndBuilder)
        ensures
            r == (WndBuilder { height: Some(value), ..self }),
    {
        WndBuilder { height: Some(value), ..self }
    }

    /// Names the parent window.
    pub fn wnd_parent<W: AsRaw<Raw = usize>>(self, value: W) -> (r: WndBuilder)
        requires
            value.as_raw_req(),
        ensures
            r == (WndBuilder { wnd_parent: Some(value.spec_raw()), ..self }),
    {
        let raw = value.as_raw();
        WndBuilder { wnd_parent: Some(raw), ..self }
    }

    /// Names the menu handle.
    pub fn menu<M: AsRaw<Raw = usize>>(self, value: M) -> (r: WndBuilder)
        requires
            value.as_raw_req(),
        ensures
            r == (WndBuilder { menu: Some(value.spec_raw()), ..self }),
    {
        let raw = value.as_raw();
        WndBuilder { menu: Some(raw), ..self }
    }

    /// For a child control: carries the control identifier where the
    /// menu handle would go.
    pub fn button_id(self, value: u16) -> (r: WndBuilder)
        ensures
            r == (WndBuilder { menu: Some(value as usize), ..self }),
    {
        WndBuilder { menu: Some(value as usize), ..self }
    }

    /// Attaches the creation payload, as the address the shell computed
    /// for it.
    pub fn param(self, param: usize) -> (r: WndBuilder)
        ensures
            r == (WndBuilder { param: Some(param), ..self }),
    {
        WndBuilder { param: Some(param), ..self }
    }

    /// The parameter record this builder stands for once complete.
    pub open spec fn spec_params(self) -> CreateWindowParams {
        CreateWindowParams {
            ex_style: 0,
            class_id: self.class_name->Some_0,
            window_name: self.window_name->Some_0,
            style: self.style->Some_0.spec_bits(),
            x: if self.x is Some {
                self.x->Some_0
            } else {
                CW_USEDEFAULT
            },
            y: if self.y is Some {
                self.y->Some_0
            } else {
                CW_USEDEFAULT
            },
            width: if self.width is Some {
                self.width->Some_0
            } else {
                CW_USEDEFAULT
            },
            height: if self.height is Some {
                self.height->Some_0
            } else {
                CW_USEDEFAULT
            },
            wnd_parent: if self.wnd_parent is Some {
                self.wnd_parent->Some_0
            } else {
                0
            },
            menu: if self.menu is Some {
                self.menu->Some_0
            } else {
                0
            },
            param: if self.param is Some {
                self.param->Some_0
            } else {
                0
            },
        }
    }

    /// Finalizes the builder into the native call's parameter record.
    /// Reachable only once every required setter has been applied: the
    /// caller must prove completeness.
    pub fn create(self) -> (r: CreateWindowParams)
        requires
            self.complete(),
        ensures
            r == self.spec_params(),
    {
        let WndBuilder { class_name, window_name, style, x, y, width, height, wnd_parent, menu, param } = self;
        let class_id = match class_name {
            Some(c) => c,
            None => unreached(),
        };
        let window_name = match window_name {
            Some(w) => w,
            None => unreached(),
        };
        let style = match style {
            Some(s) => s.bits,
            None => unreached(),
        };
        CreateWindowParams {
            ex_style: 0,
            class_id,
            window_name,
            style,
            x: unwrap_or_default_pos(x),
            y: unwrap_or_default_pos(y),
            width: unwrap_or_default_pos(width),
            height: unwrap_or_default_pos(height),
            wnd_parent: unwrap_or_zero(wnd_parent),
            menu: unwrap_or_zero(menu),
            param: unwrap_or_zero(param),
        }
    }

    /// Finalizes if complete, and otherwise says which required field is
    /// missing, deterministically: the class is reported first, then the
    /// name, then the style.
    pub fn try_create(self) -> (r: Result<CreateWindowParams, Error>)
        ensures
            self.complete() ==> (r matches Ok(p) && p == self.spec_params()),
            !self.complete() ==> r is Err,
            self.class_name is None ==> (r matches Err(e) && e matches Error::Other(m)
                && m@ == "missing class_name"@),
            self.class_name is Some && self.window_name is None ==> (r matches Err(e)
                && e matches Error::Other(m) && m@ == "missing window_name"@),
            self.class_name is Some && self.window_name is Some && self.style is None
                ==> (r matches Err(e) && e matches Error::Other(m) && m@
                == "missing style"@),
    {
        if self.class_name.is_none() {
            return crate::other_error("missing class_name");
        }
        if self.window_name.is_none() {
            return crate::other_error("missing window_name");
        }
        if self.style.is_none() {
            return crate::other_error("missing style");
        }
        Ok(self.create())
    }
}

fn unwrap_or_default_pos(v: Option<i32>) -> (r: i32)
    ensures
        r == (if v is Some {
            v->Some_0
        } else {
            CW_USEDEFAULT
        }),
{
    match v {
        Some(x) => x,
        None => CW_USEDEFAULT,
    }
}

fn unwrap_or_zero(v: Option<usize>) -> (r: usize)
    ensures
        r == (if v is Some {
            v->Some_0
        } else {
            0
        }),
{
    match v {
        Some(x) => x,
        None => 0,
    }
}

/// Decodes a native call that reports success as a nonzero status and
/// failure through the platform error code, as the window update call
/// does.
pub fn update_outcome(status: i32, err_code: u32) -> (r: Result<(), Error>)
    ensures
        status == 0 ==> r == Result::<(), Error>::Err(Error::Os(err_code)),
        status != 0 ==> r is Ok,
{
    if status == 0 {
        last_error(err_code)
    } else {
        Ok(())
    }
}

/// Decodes the native window-data read: a zero result with a clear error
/// code is a genuine zero value; a zero result with an error code set is
/// a failure; anything else is the stored value.
pub fn get_window_long_ptr(ret: isize, err_code: u32) -> (r: Result<isize, Error>)
    ensures
        ret == 0 && err_code == 0 ==> r == Result::<isize, Error>::Ok(0isize),
        ret == 0 && err_code != 0 ==> r == Result::<isize, Error>::Err(Error::Os(err_code)),
        ret != 0 ==> r == Result::<isize, Error>::Ok(ret),
{
    if ret == 0 {
        if err_code == 0 {
            Ok(0)
        } else {
            last_error(err_code)
        }
    } else {
        Ok(ret)
    }
}

/// Decodes the native window-data write exactly as the read: the
/// returned previous value is zero either genuinely or as a failure.
pub fn set_window_long_ptr(ret: isize, err_code: u32) -> (r: Result<isize, Error>)
    ensures
        ret == 0 && err_code == 0 ==> r == Result::<isize, Error>::Ok(0isize),
        ret == 0 && err_code != 0 ==> r == Result::<isize, Error>::Err(Error::Os(err_code)),
        ret != 0 ==> r == Result::<isize, Error>::Ok(ret),
{
    get_window_long_ptr(ret, err_code)
}

} // verus!
