//! Bit-level algebra shared by the style bitmask families.
//!
//! Every style family of the library is a set of bits drawn from a
//! known-bit mask, with complement bounded by that mask so that negation
//! never produces reserved bits.  The laws of that algebra are stated and
//! proved here once, over raw bits and an arbitrary mask; each family's
//! methods carry exact contracts in terms of these operations.

use vstd::prelude::*;

verus! {

/// Whether bit `i` of `bits` is set.
pub open spec fn bit_set(bits: u32, i: u32) -> bool {
    bits & (1u32 << i) != 0
}

/// Only bits of `mask` are present in `bits`.
pub open spec fn masked(bits: u32, mask: u32) -> bool {
    bits & !mask == 0
}

/// The empty set and the full mask are within the mask, and so is
/// anything truncated by it.
pub proof fn lemma_masked_basics(x: u32, mask: u32)
    ensures
        masked(0, mask),
        masked(mask, mask),
        masked(x & mask, mask),
        masked(x, mask) ==> x & mask == x,
{
    assert(0u32 & !mask == 0) by (bit_vector);
    assert(mask & !mask == 0) by (bit_vector);
    assert((x & mask) & !mask == 0) by (bit_vector);
    assert(x & !mask == 0 ==> x & mask == x) by (bit_vector);
}

/// The union of two flag sets holds every bit of either and no others,
/// and stays within the mask.
pub proof fn lemma_union(a: u32, b: u32, mask: u32)
    requires
        masked(a, mask),
        masked(b, mask),
    ensures
        masked(a | b, mask),
        forall|i: u32|
            i < 32 ==> #[trigger] bit_set(a | b, i) == (bit_set(a, i) || bit_set(b, i)),
{
    assert((a | b) & !mask == 0) by (bit_vector)
        requires
            a & !mask == 0,
            b & !mask == 0,
    ;
    assert forall|i: u32| i < 32 implies #[trigger] bit_set(a | b, i) == (bit_set(a, i)
        || bit_set(b, i)) by {
        assert(((a | b) & (1u32 << i) != 0) == ((a & (1u32 << i) != 0) || (b & (1u32 << i)
            != 0))) by (bit_vector);
    }
}

/// The intersection holds exactly the bits present in both sets.
pub proof fn lemma_intersection(a: u32, b: u32, mask: u32)
    requires
        masked(a, mask),
    ensures
        masked(a & b, mask),
        forall|i: u32|
            i < 32 ==> #[trigger] bit_set(a & b, i) == (bit_set(a, i) && bit_set(b, i)),
{
    assert((a & b) & !mask == 0) by (bit_vector)
        requires
            a & !mask == 0,
    ;
    assert forall|i: u32| i < 32 implies #[trigger] bit_set(a & b, i) == (bit_set(a, i)
        && bit_set(b, i)) by {
        assert(((a & b) & (1u32 << i) != 0) == ((a & (1u32 << i) != 0) && (b & (1u32 << i)
            != 0))) by (bit_vector);
    }
}

/// The symmetric difference toggles exactly the bits of the second set.
pub proof fn lemma_toggle(a: u32, b: u32, mask: u32)
    requires
        masked(a, mask),
        masked(b, mask),
    ensures
        masked(a ^ b, mask),
        forall|i: u32|
            i < 32 ==> #[trigger] bit_set(a ^ b, i) == (bit_set(a, i) != bit_set(b, i)),
{
    assert((a ^ b) & !mask == 0) by (bit_vector)
        requires
            a & !mask == 0,
            b & !mask == 0,
    ;
    assert forall|i: u32| i < 32 implies #[trigger] bit_set(a ^ b, i) == (bit_set(a, i)
        != bit_set(b, i)) by {
        assert(((a ^ b) & (1u32 << i) != 0) == ((a & (1u32 << i) != 0) != (b & (1u32 << i)
            != 0))) by (bit_vector);
    }
}

/// Set difference removes exactly the bits of the second set, and equals
/// intersection with the bounded complement of the second set.
pub proof fn lemma_difference(a: u32, b: u32, mask: u32)
    requires
        masked(a, mask),
        masked(b, mask),
    ensures
        masked(a & !b, mask),
        a & !b == a & (!b & mask),
        forall|i: u32|
            i < 32 ==> #[trigger] bit_set(a & !b, i) == (bit_set(a, i) && !bit_set(b, i)),
{
    assert((a & !b) & !mask == 0) by (bit_vector)
        requires
            a & !mask == 0,
    ;
    assert(a & !b == a & (!b & mask)) by (bit_vector)
        requires
            a & !mask == 0,
    ;
    assert forall|i: u32| i < 32 implies #[trigger] bit_set(a & !b, i) == (bit_set(a, i)
        && !bit_set(b, i)) by {
        assert(((a & !b) & (1u32 << i) != 0) == ((a & (1u32 << i) != 0) && !(b & (1u32
            << i) != 0))) by (bit_vector);
    }
}

/// The bounded complement holds exactly the known bits absent from the
/// set, and taking it twice gives the set back.
pub proof fn lemma_complement(a: u32, mask: u32)
    requires
        masked(a, mask),
    ensures
        masked(!a & mask, mask),
        !(!a & mask) & mask == a,
        forall|i: u32|
            i < 32 ==> #[trigger] bit_set(!a & mask, i) == (bit_set(mask, i) && !bit_set(
                a,
                i,
            )),
{
    assert((!a & mask) & !mask == 0) by (bit_vector);
    assert(!(!a & mask) & mask == a) by (bit_vector)
        requires
            a & !mask == 0,
    ;
    assert forall|i: u32| i < 32 implies #[trigger] bit_set(!a & mask, i) == (bit_set(
        mask,
        i,
    ) && !bit_set(a, i)) by {
        assert(((!a & mask) & (1u32 << i) != 0) == ((mask & (1u32 << i) != 0) && !(a
            & (1u32 << i) != 0))) by (bit_vector);
    }
}

/// Truncating a value and its complement to the mask and uniting the two
/// gives the full mask back.
pub proof fn lemma_truncate_union(x: u32, mask: u32)
    ensures
        (x & mask) | (!x & mask) == mask,
{
    assert((x & mask) | (!x & mask) == mask) by (bit_vector);
}

/// Containment of all of `b`'s bits in `a`, as the families test it.
pub open spec fn contains_bits(a: u32, b: u32) -> bool {
    a & b == b
}

/// A set that passes the containment test holds every bit of the other.
pub proof fn lemma_contains(a: u32, b: u32)
    requires
        contains_bits(a, b),
    ensures
        forall|i: u32| i < 32 ==> #[trigger] bit_set(b, i) ==> bit_set(a, i),
{
    assert forall|i: u32| i < 32 && #[trigger] bit_set(b, i) implies bit_set(a, i) by {
        assert(a & b == b && (b & (1u32 << i) != 0) ==> (a & (1u32 << i) != 0))
            by (bit_vector);
    }
}

} // verus!
