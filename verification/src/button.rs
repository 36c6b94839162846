//! Button controls: their style family and the builder preset that
//! creates one as a child window.

use vstd::prelude::*;

use crate::flags::bit_set;
use crate::flags::contains_bits;
use crate::flags::lemma_complement;
use crate::flags::lemma_difference;
use crate::flags::lemma_intersection;
use crate::flags::lemma_masked_basics;
use crate::flags::lemma_toggle;
use crate::flags::lemma_truncate_union;
use crate::flags::lemma_union;
use crate::flags::masked;
use crate::traits::AsRaw;
use crate::util::ResIdView;
use crate::util::wide_null;
use crate::wnd::Wnd;
use crate::wnd::WndBuilder;
use crate::wnd_class::WndClassIdView;

verus! {

pub const BS_PUSHBUTTON: u32 = 0x0000;

pub const BS_DEFPUSHBUTTON: u32 = 0x0001;

pub const BS_CHECKBOX: u32 = 0x0002;

pub const BS_AUTOCHECKBOX: u32 = 0x0003;

pub const BS_RADIOBUTTON: u32 = 0x0004;

pub const BS_3STATE: u32 = 0x0005;

pub const BS_AUTO3STATE: u32 = 0x0006;

pub const BS_GROUPBOX: u32 = 0x0007;

pub const BS_USERBUTTON: u32 = 0x0008;

pub const BS_AUTORADIOBUTTON: u32 = 0x0009;

pub const BS_PUSHBOX: u32 = 0x000A;

pub const BS_OWNERDRAW: u32 = 0x000B;

pub const BS_TYPEMASK: u32 = 0x000F;

pub const BS_LEFTTEXT: u32 = 0x0020;

pub const BS_RIGHTBUTTON: u32 = 0x0020;

pub const BS_TEXT: u32 = 0x0000;

pub const BS_ICON: u32 = 0x0040;

pub const BS_BITMAP: u32 = 0x0080;

pub const BS_LEFT: u32 = 0x0100;

pub const BS_RIGHT: u32 = 0x0200;

pub const BS_CENTER: u32 = 0x0300;

pub const BS_TOP: u32 = 0x0400;

pub const BS_BOTTOM: u32 = 0x0800;

pub const BS_VCENTER: u32 = 0x0C00;

pub const BS_PUSHLIKE: u32 = 0x1000;

pub const BS_MULTILINE: u32 = 0x2000;

pub const BS_NOTIFY: u32 = 0x4000;

pub const BS_FLAT: u32 = 0x8000;

/// Known-bit mask of the button style family.
pub const BUTTON_STYLE_MASK: u32 = 0xFFEF;

/// A set of button style bits.
#[derive(Debug, Clone, Copy, PartialEq, Eq, Structural)]
pub struct ButtonStyle {
    pub bits: u32,
}

impl ButtonStyle {
    /// Only known bits of the family are present.
    pub open spec fn wf(self) -> bool {
        masked(self.bits, BUTTON_STYLE_MASK)
    }

    pub open spec fn spec_bits(self) -> u32 {
        self.bits
    }

    /// Whether flag bit `i` is in the set.
    pub open spec fn has_bit(self, i: u32) -> bool {
        bit_set(self.bits, i)
    }

    pub open spec fn spec_empty() -> ButtonStyle {
        ButtonStyle { bits: 0 }
    }

    pub open spec fn spec_all() -> ButtonStyle {
        ButtonStyle { bits: BUTTON_STYLE_MASK }
    }

    pub open spec fn spec_from_bits(bits: u32) -> Option<ButtonStyle> {
        if masked(bits, BUTTON_STYLE_MASK) {
            Some(ButtonStyle { bits })
        } else {
            None
        }
    }

    pub open spec fn spec_truncate(bits: u32) -> ButtonStyle {
        ButtonStyle { bits: bits & BUTTON_STYLE_MASK }
    }

    pub open spec fn spec_union(self, other: ButtonStyle) -> ButtonStyle {
        ButtonStyle { bits: self.bits | other.bits }
    }

    pub open spec fn spec_intersection(self, other: ButtonStyle) -> ButtonStyle {
        ButtonStyle { bits: self.bits & other.bits }
    }

    pub open spec fn spec_toggle(self, other: ButtonStyle) -> ButtonStyle {
        ButtonStyle { bits: self.bits ^ other.bits }
    }

    pub open spec fn spec_difference(self, other: ButtonStyle) -> ButtonStyle {
        ButtonStyle { bits: self.bits & !other.bits }
    }

    /// Complement bounded to the known-bit mask, so that negation never
    /// introduces reserved bits.
    pub open spec fn spec_complement(self) -> ButtonStyle {
        ButtonStyle { bits: !self.bits & BUTTON_STYLE_MASK }
    }

    /// The empty set of flags.
    pub fn empty() -> (r: ButtonStyle)
        ensures
            r == ButtonStyle::spec_empty(),
            r.wf(),
    {
        proof {
            lemma_masked_basics(0, BUTTON_STYLE_MASK);
        }
        ButtonStyle { bits: 0 }
    }

    /// The set of all known flags.
    pub fn all() -> (r: ButtonStyle)
        ensures
            r == ButtonStyle::spec_all(),
            r.wf(),
    {
        proof {
            lemma_masked_basics(0, BUTTON_STYLE_MASK);
        }
        ButtonStyle { bits: BUTTON_STYLE_MASK }
    }

    /// The raw value of the flags currently stored.
    pub fn bits(&self) -> (r: u32)
        ensures
            r == self.spec_bits(),
    {
        self.bits
    }

    /// Converts from a raw value; fails exactly when a bit outside the
    /// known-bit mask is present.
    pub fn from_bits(bits: u32) -> (r: Option<ButtonStyle>)
        ensures
            r == ButtonStyle::spec_from_bits(bits),
            r is Some <==> bits & !BUTTON_STYLE_MASK == 0,
    {
        if bits & !BUTTON_STYLE_MASK != 0 {
            None
        } else {
            Some(ButtonStyle { bits })
        }
    }

    /// Converts from a raw value, dropping any unknown bits.
    pub fn from_bits_truncate(bits: u32) -> (r: ButtonStyle)
        ensures
            r == ButtonStyle::spec_truncate(bits),
            r.wf(),
    {
        proof {
            lemma_masked_basics(bits, BUTTON_STYLE_MASK);
        }
        ButtonStyle { bits: bits & BUTTON_STYLE_MASK }
    }

    /// True when no flags are stored.
    pub fn is_empty(&self) -> (r: bool)
        ensures
            r == (self.spec_bits() == 0),
    {
        self.bits == 0
    }

    /// True when every known flag is stored.
    pub fn is_all(&self) -> (r: bool)
        ensures
            r == (self.spec_bits() == BUTTON_STYLE_MASK),
    {
        self.bits == BUTTON_STYLE_MASK
    }

    /// True when the two sets share a flag.
    pub fn intersects(&self, other: ButtonStyle) -> (r: bool)
        ensures
            r == (self.spec_bits() & other.spec_bits() != 0),
    {
        self.bits & other.bits != 0
    }

    /// True when every flag of `other` is present in `self`.
    pub fn contains(&self, other: ButtonStyle) -> (r: bool)
        ensures
            r == contains_bits(self.spec_bits(), other.spec_bits()),
    {
        self.bits & other.bits == other.bits
    }

    /// Inserts the flags of `other` in place.
    pub fn insert(&mut self, other: ButtonStyle)
        requires
            old(self).wf(),
            other.wf(),
        ensures
            *final(self) == old(self).spec_union(other),
            final(self).wf(),
    {
        proof {
            lemma_union(self.bits, other.bits, BUTTON_STYLE_MASK);
        }
        self.bits = self.bits | other.bits;
    }

    /// Removes the flags of `other` in place.
    pub fn remove(&mut self, other: ButtonStyle)
        requires
            old(self).wf(),
            other.wf(),
        ensures
            *final(self) == old(self).spec_difference(other),
            final(self).wf(),
    {
        proof {
            lemma_difference(self.bits, other.bits, BUTTON_STYLE_MASK);
        }
        self.bits = self.bits & !other.bits;
    }

    /// Toggles the flags of `other` in place.
    pub fn toggle(&mut self, other: ButtonStyle)
        requires
            old(self).wf(),
            other.wf(),
        ensures
            *final(self) == old(self).spec_toggle(other),
            final(self).wf(),
    {
        proof {
            lemma_toggle(self.bits, other.bits, BUTTON_STYLE_MASK);
        }
        self.bits = self.bits ^ other.bits;
    }

    /// The union of the two sets.
    pub fn union(self, other: ButtonStyle) -> (r: ButtonStyle)
        requires
            self.wf(),
            other.wf(),
        ensures
            r == self.spec_union(other),
            r.wf(),
    {
        proof {
            lemma_union(self.bits, other.bits, BUTTON_STYLE_MASK);
        }
        ButtonStyle { bits: self.bits | other.bits }
    }

    /// The flags common to both sets.
    pub fn intersection(self, other: ButtonStyle) -> (r: ButtonStyle)
        requires
            self.wf(),
        ensures
            r == self.spec_intersection(other),
            r.wf(),
    {
        proof {
            lemma_intersection(self.bits, other.bits, BUTTON_STYLE_MASK);
        }
        ButtonStyle { bits: self.bits & other.bits }
    }

    /// The flags present in exactly one of the two sets.
    pub fn symmetric_difference(self, other: ButtonStyle) -> (r: ButtonStyle)
        requires
            self.wf(),
            other.wf(),
        ensures
            r == self.spec_toggle(other),
            r.wf(),
    {
        proof {
            lemma_toggle(self.bits, other.bits, BUTTON_STYLE_MASK);
        }
        ButtonStyle { bits: self.bits ^ other.bits }
    }

    /// The flags of `self` that are absent from `other`.
    pub fn difference(self, other: ButtonStyle) -> (r: ButtonStyle)
        requires
            self.wf(),
            other.wf(),
        ensures
            r == self.spec_difference(other),
            r.wf(),
    {
        proof {
            lemma_difference(self.bits, other.bits, BUTTON_STYLE_MASK);
        }
        ButtonStyle { bits: self.bits & !other.bits }
    }

    /// The known flags absent from `self`.
    pub fn complement(self) -> (r: ButtonStyle)
        requires
            self.wf(),
        ensures
            r == self.spec_complement(),
            r.wf(),
    {
        proof {
            lemma_complement(self.bits, BUTTON_STYLE_MASK);
        }
        ButtonStyle { bits: !self.bits & BUTTON_STYLE_MASK }
    }
}

/// Bitmask laws of the button style family: the union holds every flag of either
/// side and no others, the intersection exactly the common flags, the
/// difference exactly the left side's flags absent from the right, and
/// the difference agrees with intersecting against the bounded
/// complement.
pub proof fn lemma_button_style_set_ops(a: ButtonStyle, b: ButtonStyle, i: u32)
    requires
        a.wf(),
        b.wf(),
        i < 32,
    ensures
        a.spec_union(b).has_bit(i) == (a.has_bit(i) || b.has_bit(i)),
        a.spec_intersection(b).has_bit(i) == (a.has_bit(i) && b.has_bit(i)),
        a.spec_difference(b).has_bit(i) == (a.has_bit(i) && !b.has_bit(i)),
        a.spec_toggle(b).has_bit(i) == (a.has_bit(i) != b.has_bit(i)),
        a.spec_difference(b) == a.spec_intersection(b.spec_complement()),
        a.spec_union(b).wf() && a.spec_intersection(b).wf() && a.spec_difference(b).wf()
            && a.spec_toggle(b).wf(),
{
    lemma_union(a.bits, b.bits, BUTTON_STYLE_MASK);
    lemma_intersection(a.bits, b.bits, BUTTON_STYLE_MASK);
    lemma_difference(a.bits, b.bits, BUTTON_STYLE_MASK);
    lemma_toggle(a.bits, b.bits, BUTTON_STYLE_MASK);
}

/// The bounded complement is an involution on well-formed button style sets.
pub proof fn lemma_button_style_complement_involution(a: ButtonStyle)
    requires
        a.wf(),
    ensures
        a.spec_complement().spec_complement() == a,
        a.spec_complement().wf(),
{
    lemma_complement(a.bits, BUTTON_STYLE_MASK);
}

/// Round trip: every well-formed button style set survives conversion through
/// its raw bits.
pub proof fn lemma_button_style_round_trip(a: ButtonStyle)
    requires
        a.wf(),
    ensures
        ButtonStyle::spec_from_bits(a.spec_bits()) == Some(a),
{
}

/// Truncating any raw value and its bitwise complement and uniting the
/// two gives the full button style set.
pub proof fn lemma_button_style_truncate_union(x: u32)
    ensures
        ButtonStyle::spec_truncate(x).spec_union(ButtonStyle::spec_truncate(!x)) == ButtonStyle::spec_all(),
{
    lemma_truncate_union(x, BUTTON_STYLE_MASK);
}

/// Namespace for creating button controls.
pub struct Button;

impl Button {
    /// Starts a window builder preset for a button control: the button
    /// window class, the given parent, and the control identifier in
    /// the menu slot.
    pub fn new<W: AsRaw<Raw = usize>>(wnd_parent: W, id: u16) -> (r: WndBuilder)
        requires
            wnd_parent.as_raw_req(),
        ensures
            r.class_name matches Some(c) && c@ == (WndClassIdView {
                id: ResIdView::Name(wide_null("BUTTON"@)),
                instance: 0,
            }),
            r.wnd_parent == Some(wnd_parent.spec_raw()),
            r.menu == Some(id as usize),
            r.window_name is None && r.style is None && r.x is None && r.y is None
                && r.width is None && r.height is None && r.param is None,
    {
        Wnd::new().class_name("BUTTON").wnd_parent(wnd_parent).button_id(id)
    }
}

} // verus!
