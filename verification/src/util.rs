//! Small shared pieces: wide-character strings for the native API's
//! UTF-16 surface, and the shared/owned tag for system resources.

use vstd::prelude::*;

verus! {

/// Whether a resource is shared with the system (and so must never be
/// destroyed by this library) or owned outright.
#[derive(Debug, Clone, Copy, PartialEq, Eq, Structural)]
pub enum Shared {
    Yes,
    No,
}

impl Shared {
    /// True of the shared tag.
    pub fn to_bool(self) -> (r: bool)
        ensures
            r == (self is Yes),
    {
        match self {
            Shared::Yes => true,
            Shared::No => false,
        }
    }
}

/// A resource identifier as the native API takes it: a small ordinal
/// standing for a system resource, or a wide-string name.
#[derive(Debug)]
pub enum ResId {
    Ordinal(u16),
    Name(Vec<u16>),
}

/// The mathematical shape of a resource identifier.
pub enum ResIdView {
    Ordinal(u16),
    Name(Seq<u16>),
}

impl View for ResId {
    type V = ResIdView;

    open spec fn view(&self) -> ResIdView {
        match self {
            ResId::Ordinal(n) => ResIdView::Ordinal(*n),
            ResId::Name(v) => ResIdView::Name(v@),
        }
    }
}

impl ResId {
    /// The ordinal carried, if any.
    pub fn ordinal(&self) -> (r: Option<u16>)
        ensures
            r matches Some(n) ==> self@ == ResIdView::Ordinal(n),
            r is None ==> self@ is Name,
    {
        match self {
            ResId::Ordinal(n) => Some(*n),
            ResId::Name(_) => None,
        }
    }
}

/// The UTF-16 code units of one character: the character itself in the
/// basic plane, else its surrogate pair.
pub open spec fn utf16_units(c: char) -> Seq<u16> {
    if (c as u32) < 0x10000 {
        seq![c as u16]
    } else {
        seq![
            (0xD800 + (c as u32 - 0x10000) / 0x400) as u16,
            (0xDC00 + (c as u32 - 0x10000) % 0x400) as u16,
        ]
    }
}

/// The UTF-16 encoding of a character sequence.
pub open spec fn wide_units(s: Seq<char>) -> Seq<u16>
    decreases s.len(),
{
    if s.len() == 0 {
        Seq::empty()
    } else {
        wide_units(s.drop_last()) + utf16_units(s.last())
    }
}

/// The UTF-16 encoding with the terminating zero unit the native calls
/// expect.
pub open spec fn wide_null(s: Seq<char>) -> Seq<u16> {
    wide_units(s) + seq![0u16]
}

/// An owned, zero-terminated UTF-16 string, as the native API takes it.
#[derive(Debug)]
pub struct WCString(Vec<u16>);

impl View for WCString {
    type V = Seq<u16>;

    closed spec fn view(&self) -> Seq<u16> {
        self.0@
    }
}

impl WCString {
    /// Encodes a string as zero-terminated UTF-16.
    pub fn from_str(s: &str) -> (r: WCString)
        ensures
            r@ == wide_null(s@),
    {
        let n: usize = s.unicode_len();
        let mut v: Vec<u16> = Vec::new();
        let mut i: usize = 0;
        while i < n
            invariant
                i <= n,
                n == s@.len(),
                v@ == wide_units(s@.subrange(0, i as int)),
            decreases n - i,
        {
            let c = s.get_char(i);
            let cu = c as u32;
            if cu < 0x10000 {
                v.push(c as u16);
            } else {
                let d: u32 = cu - 0x10000;
                v.push((0xD800 + d / 0x400) as u16);
                v.push((0xDC00 + d % 0x400) as u16);
            }
            proof {
                assert(s@.subrange(0, i + 1).drop_last() =~= s@.subrange(0, i as int));
                assert(s@.subrange(0, i + 1).last() == s@[i as int]);
            }
            i = i + 1;
        }
        proof {
            assert(s@.subrange(0, n as int) =~= s@);
        }
        v.push(0u16);
        WCString(v)
    }

    /// Borrows the units whose starting address the unverified shell
    /// passes to native calls expecting a wide-string pointer.
    pub fn as_ptr(&self) -> (r: &[u16])
        ensures
            r@ == self@,
    {
        self.0.as_slice()
    }

    /// Number of units held, terminator included.
    pub fn len(&self) -> (r: usize)
        ensures
            r == self@.len(),
    {
        self.0.len()
    }
}

} // verus!
