//! Verified rendering of numbers into text, as the resource-script and
//! manifest generators need it: plain decimal, and fixed-width
//! hexadecimal in either case.

use vstd::prelude::*;

verus! {

/// The character of one decimal digit.
pub open spec fn dec_digit(d: nat) -> char {
    (d + 0x30) as char
}

/// The decimal rendering of a number, most significant digit first.
pub open spec fn spec_dec(n: nat) -> Seq<char>
    decreases n,
{
    if n < 10 {
        seq![dec_digit(n)]
    } else {
        spec_dec(n / 10).push(dec_digit(n % 10))
    }
}

/// The character of one hexadecimal digit, upper or lower case.
pub open spec fn hex_digit(d: nat, upper: bool) -> char {
    if d < 10 {
        (d + 0x30) as char
    } else if upper {
        (d - 10 + 0x41) as char
    } else {
        (d - 10 + 0x61) as char
    }
}

/// The fixed-width hexadecimal rendering of a number: exactly `width`
/// digits, leading zeros kept, high digits beyond the width dropped.
pub open spec fn spec_hex(n: nat, width: nat, upper: bool) -> Seq<char>
    decreases width,
{
    if width == 0 {
        Seq::empty()
    } else {
        spec_hex(n / 16, (width - 1) as nat, upper).push(hex_digit(n % 16, upper))
    }
}

/// Appends one character.  Relies on `String::push`: the string grows by
/// exactly that character.
#[verifier::external_body]
pub(crate) fn push_char(s: &mut String, c: char)
    ensures
        final(s)@ == old(s)@ + seq![c],
{
    s.push(c);
}

/// The character of a decimal digit value.
fn dec_digit_char(d: u32) -> (c: char)
    requires
        d < 10,
    ensures
        c == dec_digit(d as nat),
{
    (0x30 + d as u8) as char
}

/// The character of a hexadecimal digit value.
fn hex_digit_char(d: u32, upper: bool) -> (c: char)
    requires
        d < 16,
    ensures
        c == hex_digit(d as nat, upper),
{
    if d < 10 {
        (0x30 + d as u8) as char
    } else if upper {
        (0x41 + (d as u8 - 10)) as char
    } else {
        (0x61 + (d as u8 - 10)) as char
    }
}

/// Renders a number in decimal.
pub fn dec_u32(n: u32) -> (r: String)
    ensures
        r@ == spec_dec(n as nat),
    decreases n,
{
    if n < 10 {
        let mut s = String::new();
        push_char(&mut s, dec_digit_char(n));
        s
    } else {
        let mut s = dec_u32(n / 10);
        push_char(&mut s, dec_digit_char(n % 10));
        s
    }
}

/// The first sequence opens with the second.
pub open spec fn spec_starts_with(s: Seq<char>, p: Seq<char>) -> bool {
    p.len() <= s.len() && (forall|i: int| 0 <= i < p.len() ==> s[i] == p[i])
}

/// The first sequence closes with the second.
pub open spec fn spec_ends_with(s: Seq<char>, p: Seq<char>) -> bool {
    p.len() <= s.len() && (forall|i: int|
        0 <= i < p.len() ==> s[s.len() - p.len() + i] == p[i])
}

/// The position of the first occurrence of `c` at or after `from`, or
/// the length when there is none.
pub open spec fn spec_index_of(s: Seq<char>, c: char, from: int) -> int
    decreases s.len() - from,
    when 0 <= from <= s.len()
{
    if from >= s.len() {
        s.len() as int
    } else if s[from] == c {
        from
    } else {
        spec_index_of(s, c, from + 1)
    }
}

/// Whether the string opens with the prefix.
pub fn str_starts_with(s: &str, p: &str) -> (r: bool)
    ensures
        r == spec_starts_with(s@, p@),
{
    let n: usize = p.unicode_len();
    let m: usize = s.unicode_len();
    if n > m {
        return false;
    }
    let mut i: usize = 0;
    while i < n
        invariant
            i <= n <= m,
            n == p@.len(),
            m == s@.len(),
            forall|j: int| 0 <= j < i ==> s@[j] == p@[j],
        decreases n - i,
    {
        if s.get_char(i) != p.get_char(i) {
            return false;
        }
        i = i + 1;
    }
    true
}

/// Whether the string closes with the suffix.
pub fn str_ends_with(s: &str, p: &str) -> (r: bool)
    ensures
        r == spec_ends_with(s@, p@),
{
    let n: usize = p.unicode_len();
    let m: usize = s.unicode_len();
    if n > m {
        return false;
    }
    let base: usize = m - n;
    let mut i: usize = 0;
    while i < n
        invariant
            i <= n <= m,
            base == m - n,
            n == p@.len(),
            m == s@.len(),
            forall|j: int| 0 <= j < i ==> s@[base + j] == p@[j],
        decreases n - i,
    {
        if s.get_char(base + i) != p.get_char(i) {
            return false;
        }
        i = i + 1;
    }
    true
}

/// Finds the first occurrence of `c` at or after `from`, or the length
/// when there is none.
pub fn index_of(s: &str, c: char, from: usize) -> (r: usize)
    requires
        from <= s@.len(),
    ensures
        r == spec_index_of(s@, c, from as int),
        from <= r <= s@.len(),
        r < s@.len() ==> s@[r as int] == c,
{
    let n: usize = s.unicode_len();
    let mut i: usize = from;
    while i < n
        invariant
            from <= i <= n,
            n == s@.len(),
            spec_index_of(s@, c, from as int) == spec_index_of(s@, c, i as int),
        decreases n - i,
    {
        if s.get_char(i) == c {
            return i;
        }
        i = i + 1;
    }
    i
}

/// Renders a number as exactly `width` hexadecimal digits.
pub fn hex_fixed(n: u32, width: usize, upper: bool) -> (r: String)
    ensures
        r@ == spec_hex(n as nat, width as nat, upper),
    decreases width,
{
    if width == 0 {
        String::new()
    } else {
        let mut s = hex_fixed(n / 16, width - 1, upper);
        push_char(&mut s, hex_digit_char(n % 16, upper));
        s
    }
}

} // verus!
