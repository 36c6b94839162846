//! Static controls: their style family.

use vstd::prelude::*;

use crate::flags::bit_set;
use crate::flags::contains_bits;
use crate::flags::lemma_complement;
use crate::flags::lemma_difference;
use crate::flags::lemma_intersection;
use crate::flags::lemma_masked_basics;
use crate::flags::lemma_toggle;
use crate::flags::lemma_truncate_union;
use crate::flags::lemma_union;
use crate::flags::masked;

verus! {

pub const SS_LEFT: u32 = 0x0000;

pub const SS_CENTER: u32 = 0x0001;

pub const SS_RIGHT: u32 = 0x0002;

pub const SS_ICON: u32 = 0x0003;

pub const SS_BLACKRECT: u32 = 0x0004;

pub const SS_GRAYRECT: u32 = 0x0005;

pub const SS_WHITERECT: u32 = 0x0006;

pub const SS_BLACKFRAME: u32 = 0x0007;

pub const SS_GRAYFRAME: u32 = 0x0008;

pub const SS_WHITEFRAME: u32 = 0x0009;

pub const SS_USERITEM: u32 = 0x000A;

pub const SS_SIMPLE: u32 = 0x000B;

pub const SS_LEFTNOWORDWRAP: u32 = 0x000C;

pub const SS_OWNERDRAW: u32 = 0x000D;

pub const SS_BITMAP: u32 = 0x000E;

pub const SS_ENHMETAFILE: u32 = 0x000F;

pub const SS_ETCHEDHORZ: u32 = 0x0010;

pub const SS_ETCHEDVERT: u32 = 0x0011;

pub const SS_ETCHEDFRAME: u32 = 0x0012;

pub const SS_TYPEMASK: u32 = 0x001F;

pub const SS_REALSIZECONTROL: u32 = 0x0040;

pub const SS_NOPREFIX: u32 = 0x0080;

pub const SS_NOTIFY: u32 = 0x0100;

pub const SS_CENTERIMAGE: u32 = 0x0200;

pub const SS_RIGHTJUST: u32 = 0x0400;

pub const SS_REALSIZEIMAGE: u32 = 0x0800;

pub const SS_SUNKEN: u32 = 0x1000;

pub const SS_EDITCONTROL: u32 = 0x2000;

pub const SS_ENDELLIPSIS: u32 = 0x4000;

pub const SS_PATHELLIPSIS: u32 = 0x8000;

pub const SS_WORDELLIPSIS: u32 = 0xC000;

pub const SS_ELLIPSISMASK: u32 = 0xC000;

/// Known-bit mask of the static-control style family.
pub const STATIC_STYLE_MASK: u32 = 0xFFDF;

/// A set of static-control style bits.
#[derive(Debug, Clone, Copy, PartialEq, Eq, Structural)]
pub struct StaticStyle {
    pub bits: u32,
}

impl StaticStyle {
    /// Only known bits of the family are present.
    pub open spec fn wf(self) -> bool {
        masked(self.bits, STATIC_STYLE_MASK)
    }

    pub open spec fn spec_bits(self) -> u32 {
        self.bits
    }

    /// Whether flag bit `i` is in the set.
    pub open spec fn has_bit(self, i: u32) -> bool {
        bit_set(self.bits, i)
    }

    pub open spec fn spec_empty() -> StaticStyle {
        StaticStyle { bits: 0 }
    }

    pub open spec fn spec_all() -> StaticStyle {
        StaticStyle { bits: STATIC_STYLE_MASK }
    }

    pub open spec fn spec_from_bits(bits: u32) -> Option<StaticStyle> {
        if masked(bits, STATIC_STYLE_MASK) {
            Some(StaticStyle { bits })
        } else {
            None
        }
    }

    pub open spec fn spec_truncate(bits: u32) -> StaticStyle {
        StaticStyle { bits: bits & STATIC_STYLE_MASK }
    }

    pub open spec fn spec_union(self, other: StaticStyle) -> StaticStyle {
        StaticStyle { bits: self.bits | other.bits }
    }

    pub open spec fn spec_intersection(self, other: StaticStyle) -> StaticStyle {
        StaticStyle { bits: self.bits & other.bits }
    }

    pub open spec fn spec_toggle(self, other: StaticStyle) -> StaticStyle {
        StaticStyle { bits: self.bits ^ other.bits }
    }

    pub open spec fn spec_difference(self, other: StaticStyle) -> StaticStyle {
        StaticStyle { bits: self.bits & !other.bits }
    }

    /// Complement bounded to the known-bit mask, so that negation never
    /// introduces reserved bits.
    pub open spec fn spec_complement(self) -> StaticStyle {
        StaticStyle { bits: !self.bits & STATIC_STYLE_MASK }
    }

    /// The empty set of flags.
    pub fn empty() -> (r: StaticStyle)
        ensures
            r == StaticStyle::spec_empty(),
            r.wf(),
    {
        proof {
            lemma_masked_basics(0, STATIC_STYLE_MASK);
        }
        StaticStyle { bits: 0 }
    }

    /// The set of all known flags.
    pub fn all() -> (r: StaticStyle)
        ensures
            r == StaticStyle::spec_all(),
            r.wf(),
    {
        proof {
            lemma_masked_basics(0, STATIC_STYLE_MASK);
        }
        StaticStyle { bits: STATIC_STYLE_MASK }
    }

    /// The raw value of the flags currently stored.
    pub fn bits(&self) -> (r: u32)
        ensures
            r == self.spec_bits(),
    {
        self.bits
    }

    /// Converts from a raw value; fails exactly when a bit outside the
    /// known-bit mask is present.
    pub fn from_bits(bits: u32) -> (r: Option<StaticStyle>)
        ensures
            r == StaticStyle::spec_from_bits(bits),
            r is Some <==> bits & !STATIC_STYLE_MASK == 0,
    {
        if bits & !STATIC_STYLE_MASK != 0 {
            None
        } else {
            Some(StaticStyle { bits })
        }
    }

    /// Converts from a raw value, dropping any unknown bits.
    pub fn from_bits_truncate(bits: u32) -> (r: StaticStyle)
        ensures
            r == StaticStyle::spec_truncate(bits),
            r.wf(),
    {
        proof {
            lemma_masked_basics(bits, STATIC_STYLE_MASK);
        }
        StaticStyle { bits: bits & STATIC_STYLE_MASK }
    }

    /// True when no flags are stored.
    pub fn is_empty(&self) -> (r: bool)
        ensures
            r == (self.spec_bits() == 0),
    {
        self.bits == 0
    }

    /// True when every known flag is stored.
    pub fn is_all(&self) -> (r: bool)
        ensures
            r == (self.spec_bits() == STATIC_STYLE_MASK),
    {
        self.bits == STATIC_STYLE_MASK
    }

    /// True when the two sets share a flag.
    pub fn intersects(&self, other: StaticStyle) -> (r: bool)
        ensures
            r == (self.spec_bits() & other.spec_bits() != 0),
    {
        self.bits & other.bits != 0
    }

    /// True when every flag of `other` is present in `self`.
    pub fn contains(&self, other: StaticStyle) -> (r: bool)
        ensures
            r == contains_bits(self.spec_bits(), other.spec_bits()),
    {
        self.bits & other.bits == other.bits
    }

    /// Inserts the flags of `other` in place.
    pub fn insert(&mut self, other: StaticStyle)
        requires
            old(self).wf(),
            other.wf(),
        ensures
            *final(self) == old(self).spec_union(other),
            final(self).wf(),
    {
        proof {
            lemma_union(self.bits, other.bits, STATIC_STYLE_MASK);
        }
        self.bits = self.bits | other.bits;
    }

    /// Removes the flags of `other` in place.
    pub fn remove(&mut self, other: StaticStyle)
        requires
            old(self).wf(),
            other.wf(),
        ensures
            *final(self) == old(self).spec_difference(other),
            final(self).wf(),
    {
        proof {
            lemma_difference(self.bits, other.bits, STATIC_STYLE_MASK);
        }
        self.bits = self.bits & !other.bits;
    }

    /// Toggles the flags of `other` in place.
    pub fn toggle(&mut self, other: StaticStyle)
        requires
            old(self).wf(),
            other.wf(),
        ensures
            *final(self) == old(self).spec_toggle(other),
            final(self).wf(),
    {
        proof {
            lemma_toggle(self.bits, other.bits, STATIC_STYLE_MASK);
        }
        self.bits = self.bits ^ other.bits;
    }

    /// The union of the two sets.
    pub fn union(self, other: StaticStyle) -> (r: StaticStyle)
        requires
            self.wf(),
            other.wf(),
        ensures
            r == self.spec_union(other),
            r.wf(),
    {
        proof {
            lemma_union(self.bits, other.bits, STATIC_STYLE_MASK);
        }
        StaticStyle { bits: self.bits | other.bits }
    }

    /// The flags common to both sets.
    pub fn intersection(self, other: StaticStyle) -> (r: StaticStyle)
        requires
            self.wf(),
        ensures
            r == self.spec_intersection(other),
            r.wf(),
    {
        proof {
            lemma_intersection(self.bits, other.bits, STATIC_STYLE_MASK);
        }
        StaticStyle { bits: self.bits & other.bits }
    }

    /// The flags present in exactly one of the two sets.
    pub fn symmetric_difference(self, other: StaticStyle) -> (r: StaticStyle)
        requires
            self.wf(),
            other.wf(),
        ensures
            r == self.spec_toggle(other),
            r.wf(),
    {
        proof {
            lemma_toggle(self.bits, other.bits, STATIC_STYLE_MASK);
        }
        StaticStyle { bits: self.bits ^ other.bits }
    }

    /// The flags of `self` that are absent from `other`.
    pub fn difference(self, other: StaticStyle) -> (r: StaticStyle)
        requires
            self.wf(),
            other.wf(),
        ensures
            r == self.spec_difference(other),
            r.wf(),
    {
        proof {
            lemma_difference(self.bits, other.bits, STATIC_STYLE_MASK);
        }
        StaticStyle { bits: self.bits & !other.bits }
    }

    /// The known flags absent from `self`.
    pub fn complement(self) -> (r: StaticStyle)
        requires
            self.wf(),
        ensures
            r == self.spec_complement(),
            r.wf(),
    {
        proof {
            lemma_complement(self.bits, STATIC_STYLE_MASK);
        }
        StaticStyle { bits: !self.bits & STATIC_STYLE_MASK }
    }
}

/// Bitmask laws of the static-control style family: the union holds every flag of either
/// side and no others, the intersection exactly the common flags, the
/// difference exactly the left side's flags absent from the right, and
/// the difference agrees with intersecting against the bounded
/// complement.
pub proof fn lemma_static_style_set_ops(a: StaticStyle, b: StaticStyle, i: u32)
    requires
        a.wf(),
        b.wf(),
        i < 32,
    ensures
        a.spec_union(b).has_bit(i) == (a.has_bit(i) || b.has_bit(i)),
        a.spec_intersection(b).has_bit(i) == (a.has_bit(i) && b.has_bit(i)),
        a.spec_difference(b).has_bit(i) == (a.has_bit(i) && !b.has_bit(i)),
        a.spec_toggle(b).has_bit(i) == (a.has_bit(i) != b.has_bit(i)),
        a.spec_difference(b) == a.spec_intersection(b.spec_complement()),
        a.spec_union(b).wf() && a.spec_intersection(b).wf() && a.spec_difference(b).wf()
            && a.spec_toggle(b).wf(),
{
    lemma_union(a.bits, b.bits, STATIC_STYLE_MASK);
    lemma_intersection(a.bits, b.bits, STATIC_STYLE_MASK);
    lemma_difference(a.bits, b.bits, STATIC_STYLE_MASK);
    lemma_toggle(a.bits, b.bits, STATIC_STYLE_MASK);
}

/// The bounded complement is an involution on well-formed static-control style sets.
pub proof fn lemma_static_style_complement_involution(a: StaticStyle)
    requires
        a.wf(),
    ensures
        a.spec_complement().spec_complement() == a,
        a.spec_complement().wf(),
{
    lemma_complement(a.bits, STATIC_STYLE_MASK);
}

/// Round trip: every well-formed static-control style set survives conversion through
/// its raw bits.
pub proof fn lemma_static_style_round_trip(a: StaticStyle)
    requires
        a.wf(),
    ensures
        StaticStyle::spec_from_bits(a.spec_bits()) == Some(a),
{
}

/// Truncating any raw value and its bitwise complement and uniting the
/// two gives the full static-control style set.
pub proof fn lemma_static_style_truncate_union(x: u32)
    ensures
        StaticStyle::spec_truncate(x).spec_union(StaticStyle::spec_truncate(!x)) == StaticStyle::spec_all(),
{
    lemma_truncate_union(x, STATIC_STYLE_MASK);
}

} // verus!
