//! Message boxes: the option family, the result repertoire, and the
//! decoding of the native dialog call's report.

use vstd::prelude::*;

use crate::Error;
use crate::last_error;
use crate::other_error;
use crate::flags::bit_set;
use crate::flags::contains_bits;
use crate::flags::lemma_complement;
use crate::flags::lemma_difference;
use crate::flags::lemma_intersection;
use crate::flags::lemma_masked_basics;
use crate::flags::lemma_toggle;
use crate::flags::lemma_truncate_union;
use crate::flags::lemma_union;
use crate::flags::masked;

verus! {

pub const MB_OK: u32 = 0x0000;

pub const MB_OKCANCEL: u32 = 0x0001;

pub const MB_ABORTRETRYIGNORE: u32 = 0x0002;

pub const MB_YESNOCANCEL: u32 = 0x0003;

pub const MB_YESNO: u32 = 0x0004;

pub const MB_RETRYCANCEL: u32 = 0x0005;

pub const MB_CANCELTRYCONTINUE: u32 = 0x0006;

pub const MB_HELP: u32 = 0x4000;

pub const MB_ICONHAND: u32 = 0x0010;

pub const MB_ICONSTOP: u32 = 0x0010;

pub const MB_ICONERROR: u32 = 0x0010;

pub const MB_ICONQUESTION: u32 = 0x0020;

pub const MB_ICONEXCLAMATION: u32 = 0x0030;

pub const MB_ICONWARNING: u32 = 0x0030;

pub const MB_ICONINFORMATION: u32 = 0x0040;

pub const MB_ICONASTERISK: u32 = 0x0040;

pub const MB_DEFBUTTON1: u32 = 0x0000;

pub const MB_DEFBUTTON2: u32 = 0x0100;

pub const MB_DEFBUTTON3: u32 = 0x0200;

pub const MB_DEFBUTTON4: u32 = 0x0300;

pub const MB_APPLMODAL: u32 = 0x0000;

pub const MB_SYSTEMMODAL: u32 = 0x1000;

pub const MB_TASKMODAL: u32 = 0x2000;

pub const MB_SETFOREGROUND: u32 = 0x10000;

pub const MB_DEFAULT_DESKTOP_ONLY: u32 = 0x20000;

pub const MB_TOPMOST: u32 = 0x40000;

pub const MB_RIGHT: u32 = 0x80000;

pub const MB_RTLREADING: u32 = 0x100000;

pub const MB_SERVICE_NOTIFICATION: u32 = 0x200000;

/// Known-bit mask of the message-box option family.
pub const MESSAGE_BOX_TYPE_MASK: u32 = 0x003F_7377;

/// A set of message-box option bits.
#[derive(Debug, Clone, Copy, PartialEq, Eq, Structural)]
pub struct MessageBoxType {
    pub bits: u32,
}

impl MessageBoxType {
    /// Only known bits of the family are present.
    pub open spec fn wf(self) -> bool {
        masked(self.bits, MESSAGE_BOX_TYPE_MASK)
    }

    pub open spec fn spec_bits(self) -> u32 {
        self.bits
    }

    /// Whether flag bit `i` is in the set.
    pub open spec fn has_bit(self, i: u32) -> bool {
        bit_set(self.bits, i)
    }

    pub open spec fn spec_empty() -> MessageBoxType {
        MessageBoxType { bits: 0 }
    }

    pub open spec fn spec_all() -> MessageBoxType {
        MessageBoxType { bits: MESSAGE_BOX_TYPE_MASK }
    }

    pub open spec fn spec_from_bits(bits: u32) -> Option<MessageBoxType> {
        if masked(bits, MESSAGE_BOX_TYPE_MASK) {
            Some(MessageBoxType { bits })
        } else {
            None
        }
    }

    pub open spec fn spec_truncate(bits: u32) -> MessageBoxType {
        MessageBoxType { bits: bits & MESSAGE_BOX_TYPE_MASK }
    }

    pub open spec fn spec_union(self, other: MessageBoxType) -> MessageBoxType {
        MessageBoxType { bits: self.bits | other.bits }
    }

    pub open spec fn spec_intersection(self, other: MessageBoxType) -> MessageBoxType {
        MessageBoxType { bits: self.bits & other.bits }
    }

    pub open spec fn spec_toggle(self, other: MessageBoxType) -> MessageBoxType {
        MessageBoxType { bits: self.bits ^ other.bits }
    }

    pub open spec fn spec_difference(self, other: MessageBoxType) -> MessageBoxType {
        MessageBoxType { bits: self.bits & !other.bits }
    }

    /// Complement bounded to the known-bit mask, so that negation never
    /// introduces reserved bits.
    pub open spec fn spec_complement(self) -> MessageBoxType {
        MessageBoxType { bits: !self.bits & MESSAGE_BOX_TYPE_MASK }
    }

    /// The empty set of flags.
    pub fn empty() -> (r: MessageBoxType)
        ensures
            r == MessageBoxType::spec_empty(),
            r.wf(),
    {
        proof {
            lemma_masked_basics(0, MESSAGE_BOX_TYPE_MASK);
        }
        MessageBoxType { bits: 0 }
    }

    /// The set of all known flags.
    pub fn all() -> (r: MessageBoxType)
        ensures
            r == MessageBoxType::spec_all(),
            r.wf(),
    {
        proof {
            lemma_masked_basics(0, MESSAGE_BOX_TYPE_MASK);
        }
        MessageBoxType { bits: MESSAGE_BOX_TYPE_MASK }
    }

    /// The raw value of the flags currently stored.
    pub fn bits(&self) -> (r: u32)
        ensures
            r == self.spec_bits(),
    {
        self.bits
    }

    /// Converts from a raw value; fails exactly when a bit outside the
    /// known-bit mask is present.
    pub fn from_bits(bits: u32) -> (r: Option<MessageBoxType>)
        ensures
            r == MessageBoxType::spec_from_bits(bits),
            r is Some <==> bits & !MESSAGE_BOX_TYPE_MASK == 0,
    {
        if bits & !MESSAGE_BOX_TYPE_MASK != 0 {
            None
        } else {
            Some(MessageBoxType { bits })
        }
    }

    /// Converts from a raw value, dropping any unknown bits.
    pub fn from_bits_truncate(bits: u32) -> (r: MessageBoxType)
        ensures
            r == MessageBoxType::spec_truncate(bits),
            r.wf(),
    {
        proof {
            lemma_masked_basics(bits, MESSAGE_BOX_TYPE_MASK);
        }
        MessageBoxType { bits: bits & MESSAGE_BOX_TYPE_MASK }
    }

    /// True when no flags are stored.
    pub fn is_empty(&self) -> (r: bool)
        ensures
            r == (self.spec_bits() == 0),
    {
        self.bits == 0
    }

    /// True when every known flag is stored.
    pub fn is_all(&self) -> (r: bool)
        ensures
            r == (self.spec_bits() == MESSAGE_BOX_TYPE_MASK),
    {
        self.bits == MESSAGE_BOX_TYPE_MASK
    }

    /// True when the two sets share a flag.
    pub fn intersects(&self, other: MessageBoxType) -> (r: bool)
        ensures
            r == (self.spec_bits() & other.spec_bits() != 0),
    {
        self.bits & other.bits != 0
    }

    /// True when every flag of `other` is present in `self`.
    pub fn contains(&self, other: MessageBoxType) -> (r: bool)
        ensures
            r == contains_bits(self.spec_bits(), other.spec_bits()),
    {
        self.bits & other.bits == other.bits
    }

    /// Inserts the flags of `other` in place.
    pub fn insert(&mut self, other: MessageBoxType)
        requires
            old(self).wf(),
            other.wf(),
        ensures
            *final(self) == old(self).spec_union(other),
            final(self).wf(),
    {
        proof {
            lemma_union(self.bits, other.bits, MESSAGE_BOX_TYPE_MASK);
        }
        self.bits = self.bits | other.bits;
    }

    /// Removes the flags of `other` in place.
    pub fn remove(&mut self, other: MessageBoxType)
        requires
            old(self).wf(),
            other.wf(),
        ensures
            *final(self) == old(self).spec_difference(other),
            final(self).wf(),
    {
        proof {
            lemma_difference(self.bits, other.bits, MESSAGE_BOX_TYPE_MASK);
        }
        self.bits = self.bits & !other.bits;
    }

    /// Toggles the flags of `other` in place.
    pub fn toggle(&mut self, other: MessageBoxType)
        requires
            old(self).wf(),
            other.wf(),
        ensures
            *final(self) == old(self).spec_toggle(other),
            final(self).wf(),
    {
        proof {
            lemma_toggle(self.bits, other.bits, MESSAGE_BOX_TYPE_MASK);
        }
        self.bits = self.bits ^ other.bits;
    }

    /// The union of the two sets.
    pub fn union(self, other: MessageBoxType) -> (r: MessageBoxType)
        requires
            self.wf(),
            other.wf(),
        ensures
            r == self.spec_union(other),
            r.wf(),
    {
        proof {
            lemma_union(self.bits, other.bits, MESSAGE_BOX_TYPE_MASK);
        }
        MessageBoxType { bits: self.bits | other.bits }
    }

    /// The flags common to both sets.
    pub fn intersection(self, other: MessageBoxType) -> (r: MessageBoxType)
        requires
            self.wf(),
        ensures
            r == self.spec_intersection(other),
            r.wf(),
    {
        proof {
            lemma_intersection(self.bits, other.bits, MESSAGE_BOX_TYPE_MASK);
        }
        MessageBoxType { bits: self.bits & other.bits }
    }

    /// The flags present in exactly one of the two sets.
    pub fn symmetric_difference(self, other: MessageBoxType) -> (r: MessageBoxType)
        requires
            self.wf(),
            other.wf(),
        ensures
            r == self.spec_toggle(other),
            r.wf(),
    {
        proof {
            lemma_toggle(self.bits, other.bits, MESSAGE_BOX_TYPE_MASK);
        }
        MessageBoxType { bits: self.bits ^ other.bits }
    }

    /// The flags of `self` that are absent from `other`.
    pub fn difference(self, other: MessageBoxType) -> (r: MessageBoxType)
        requires
            self.wf(),
            other.wf(),
        ensures
            r == self.spec_difference(other),
            r.wf(),
    {
        proof {
            lemma_difference(self.bits, other.bits, MESSAGE_BOX_TYPE_MASK);
        }
        MessageBoxType { bits: self.bits & !other.bits }
    }

    /// The known flags absent from `self`.
    pub fn complement(self) -> (r: MessageBoxType)
        requires
            self.wf(),
        ensures
            r == self.spec_complement(),
            r.wf(),
    {
        proof {
            lemma_complement(self.bits, MESSAGE_BOX_TYPE_MASK);
        }
        MessageBoxType { bits: !self.bits & MESSAGE_BOX_TYPE_MASK }
    }
}

/// Bitmask laws of the message-box option family: the union holds every flag of either
/// side and no others, the intersection exactly the common flags, the
/// difference exactly the left side's flags absent from the right, and
/// the difference agrees with intersecting against the bounded
/// complement.
pub proof fn lemma_message_box_type_set_ops(a: MessageBoxType, b: MessageBoxType, i: u32)
    requires
        a.wf(),
        b.wf(),
        i < 32,
    ensures
        a.spec_union(b).has_bit(i) == (a.has_bit(i) || b.has_bit(i)),
        a.spec_intersection(b).has_bit(i) == (a.has_bit(i) && b.has_bit(i)),
        a.spec_difference(b).has_bit(i) == (a.has_bit(i) && !b.has_bit(i)),
        a.spec_toggle(b).has_bit(i) == (a.has_bit(i) != b.has_bit(i)),
        a.spec_difference(b) == a.spec_intersection(b.spec_complement()),
        a.spec_union(b).wf() && a.spec_intersection(b).wf() && a.spec_difference(b).wf()
            && a.spec_toggle(b).wf(),
{
    lemma_union(a.bits, b.bits, MESSAGE_BOX_TYPE_MASK);
    lemma_intersection(a.bits, b.bits, MESSAGE_BOX_TYPE_MASK);
    lemma_difference(a.bits, b.bits, MESSAGE_BOX_TYPE_MASK);
    lemma_toggle(a.bits, b.bits, MESSAGE_BOX_TYPE_MASK);
}

/// The bounded complement is an involution on well-formed message-box option sets.
pub proof fn lemma_message_box_type_complement_involution(a: MessageBoxType)
    requires
        a.wf(),
    ensures
        a.spec_complement().spec_complement() == a,
        a.spec_complement().wf(),
{
    lemma_complement(a.bits, MESSAGE_BOX_TYPE_MASK);
}

/// Round trip: every well-formed message-box option set survives conversion through
/// its raw bits.
pub proof fn lemma_message_box_type_round_trip(a: MessageBoxType)
    requires
        a.wf(),
    ensures
        MessageBoxType::spec_from_bits(a.spec_bits()) == Some(a),
{
}

/// Truncating any raw value and its bitwise complement and uniting the
/// two gives the full message-box option set.
pub proof fn lemma_message_box_type_truncate_union(x: u32)
    ensures
        MessageBoxType::spec_truncate(x).spec_union(MessageBoxType::spec_truncate(!x)) == MessageBoxType::spec_all(),
{
    lemma_truncate_union(x, MESSAGE_BOX_TYPE_MASK);
}

/// The button a message box reports was chosen.
#[derive(Debug, Clone, Copy, PartialEq, Eq, Structural)]
pub enum MessageBoxResult {
    Abort,
    Cancel,
    Continue,
    Ignore,
    No,
    Okay,
    Retry,
    TryAgain,
    Yes,
}

impl MessageBoxResult {
    /// The native numeric code of this result.
    pub open spec fn spec_repr(self) -> i32 {
        match self {
            MessageBoxResult::Okay => 1,
            MessageBoxResult::Cancel => 2,
            MessageBoxResult::Abort => 3,
            MessageBoxResult::Retry => 4,
            MessageBoxResult::Ignore => 5,
            MessageBoxResult::Yes => 6,
            MessageBoxResult::No => 7,
            MessageBoxResult::TryAgain => 10,
            MessageBoxResult::Continue => 11,
        }
    }

    /// Converts from the native numeric code; fails exactly on values
    /// no result carries.
    pub fn try_from_repr(v: i32) -> (r: Option<MessageBoxResult>)
        ensures
            r matches Some(m) ==> m.spec_repr() == v,
            r is None <==> !(1 <= v <= 7 || v == 10 || v == 11),
    {
        match v {
            1 => Some(MessageBoxResult::Okay),
            2 => Some(MessageBoxResult::Cancel),
            3 => Some(MessageBoxResult::Abort),
            4 => Some(MessageBoxResult::Retry),
            5 => Some(MessageBoxResult::Ignore),
            6 => Some(MessageBoxResult::Yes),
            7 => Some(MessageBoxResult::No),
            10 => Some(MessageBoxResult::TryAgain),
            11 => Some(MessageBoxResult::Continue),
            _ => None,
        }
    }
}

/// Decodes the native message-box call's report: zero means failure
/// with the platform error code; a code outside the known repertoire is
/// the unexpected-result failure; anything else is the chosen button.
pub fn message_box_outcome(status: i32, err_code: u32) -> (r: Result<MessageBoxResult, Error>)
    ensures
        status == 0 ==> r == Result::<MessageBoxResult, Error>::Err(Error::Os(err_code)),
        status != 0 && (1 <= status <= 7 || status == 10 || status == 11) ==> (r matches Ok(m)
            && m.spec_repr() == status),
        status != 0 && !(1 <= status <= 7 || status == 10 || status == 11) ==> (r matches Err(
            e,
        ) && e matches Error::Other(m) && m@ == "unexpected result"@),
{
    if status == 0 {
        last_error(err_code)
    } else {
        match MessageBoxResult::try_from_repr(status) {
            Some(m) => Ok(m),
            None => other_error("unexpected result"),
        }
    }
}

} // verus!
