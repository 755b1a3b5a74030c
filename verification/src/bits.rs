//! Flag words: what it means for a word to hold a mask, and the algebra of
//! setting, clearing and overwriting bits that the codec's proofs rest on.

use vstd::prelude::*;

verus! {

/// Every bit of `mask` is set in `word`.
pub open spec fn holds(word: u64, mask: u64) -> bool {
    word & mask == mask
}

/// `word` with every bit of `mask` set.
pub open spec fn with_bits(word: u64, mask: u64) -> u64 {
    word | mask
}

/// `word` with every bit of `mask` cleared.
pub open spec fn without_bits(word: u64, mask: u64) -> u64 {
    word & !mask
}

/// `word` with the bits under `field` replaced by `value`.
pub open spec fn with_field(word: u64, field: u64, value: u64) -> u64 {
    (word & !field) | value
}

/// The two masks share no bit.
pub open spec fn disjoint(a: u64, b: u64) -> bool {
    a & b == 0
}

/// Every bit of `part` lies under `whole`.
pub open spec fn within(part: u64, whole: u64) -> bool {
    part & !whole == 0
}

/// The mask has exactly one bit.
pub open spec fn single_bit(mask: u64) -> bool {
    mask != 0 && mask & ((mask - 1) as u64) == 0
}

/// Two different masks of one bit each share no bit.
pub proof fn lemma_single_bits_disjoint(a: u64, b: u64)
    requires
        single_bit(a),
        single_bit(b),
        a != b,
    ensures
        disjoint(a, b),
{
    assert(a & b == 0) by (bit_vector)
        requires
            a != 0 && a & ((a - 1) as u64) == 0,
            b != 0 && b & ((b - 1) as u64) == 0,
            a != b,
    ;
}

/// A mask that was set is held.
pub proof fn lemma_set_holds(word: u64, mask: u64)
    ensures
        holds(with_bits(word, mask), mask),
{
    assert((word | mask) & mask == mask) by (bit_vector);
}

/// A mask with at least one bit is not held once it was cleared.
pub proof fn lemma_cleared_holds_not(word: u64, mask: u64)
    requires
        mask != 0,
    ensures
        !holds(without_bits(word, mask), mask),
{
    assert((word & !mask) & mask != mask) by (bit_vector)
        requires
            mask != 0,
    ;
}

/// Once a mask was cleared, the word holds no part of it that has a bit.
pub proof fn lemma_cleared_part_holds_not(word: u64, mask: u64, part: u64)
    requires
        part != 0,
        holds(mask, part),
    ensures
        !holds(without_bits(word, mask), part),
{
    assert((word & !mask) & part != part) by (bit_vector)
        requires
            part != 0,
            mask & part == part,
    ;
}

/// A union of two masks holds each of them.
pub proof fn lemma_union_holds(a: u64, b: u64)
    ensures
        holds(a | b, a),
        holds(a | b, b),
{
    assert((a | b) & a == a && (a | b) & b == b) by (bit_vector);
}

/// Setting bits never takes a held mask away.
pub proof fn lemma_set_keeps(word: u64, mask: u64, other: u64)
    requires
        holds(word, other),
    ensures
        holds(with_bits(word, mask), other),
{
    assert((word | mask) & other == other) by (bit_vector)
        requires
            word & other == other,
    ;
}

/// Setting or clearing a mask leaves the bits under a disjoint mask as they were.
pub proof fn lemma_frame(word: u64, mask: u64, other: u64)
    requires
        disjoint(mask, other),
    ensures
        with_bits(word, mask) & other == word & other,
        without_bits(word, mask) & other == word & other,
{
    assert((word | mask) & other == word & other && (word & !mask) & other == word & other)
        by (bit_vector)
        requires
            mask & other == 0,
    ;
}

/// A value written under a field is read back from under it.
pub proof fn lemma_field_read_back(word: u64, field: u64, value: u64)
    requires
        within(value, field),
    ensures
        with_field(word, field, value) & field == value,
{
    assert(((word & !field) | value) & field == value) by (bit_vector)
        requires
            value & !field == 0,
    ;
}

/// Writing under a field leaves the bits under a disjoint mask as they were.
pub proof fn lemma_field_frame(word: u64, field: u64, value: u64, other: u64)
    requires
        within(value, field),
        disjoint(field, other),
    ensures
        with_field(word, field, value) & other == word & other,
{
    assert(((word & !field) | value) & other == word & other) by (bit_vector)
        requires
            value & !field == 0,
            field & other == 0,
    ;
}

/// Setting, clearing and writing twice is the same as doing it once.
pub proof fn lemma_idempotent(word: u64, mask: u64, value: u64)
    ensures
        with_bits(with_bits(word, mask), mask) == with_bits(word, mask),
        without_bits(without_bits(word, mask), mask) == without_bits(word, mask),
        with_field(with_field(word, mask, value), mask, value) == with_field(word, mask, value),
{
    assert((word | mask) | mask == word | mask) by (bit_vector);
    assert((word & !mask) & !mask == word & !mask) by (bit_vector);
    assert((((word & !mask) | value) & !mask) | value == (word & !mask) | value) by (bit_vector);
}

/// Clearing a mask and then writing under a field, done twice, is the same
/// as done once.
pub proof fn lemma_clear_and_write_idempotent(word: u64, mask: u64, field: u64, value: u64)
    ensures
        with_field(
            without_bits(with_field(without_bits(word, mask), field, value), mask),
            field,
            value,
        ) == with_field(without_bits(word, mask), field, value),
{
    assert(((((word & !mask) & !field) | value) & !mask & !field) | value == ((word & !mask)
        & !field) | value) by (bit_vector);
}

/// Setting one mask after another sets their union; so does clearing.
pub proof fn lemma_union(word: u64, a: u64, b: u64)
    ensures
        with_bits(with_bits(word, a), b) == with_bits(word, a | b),
        without_bits(without_bits(word, a), b) == without_bits(word, a | b),
{
    assert((word | a) | b == word | (a | b)) by (bit_vector);
    assert((word & !a) & !b == word & !(a | b)) by (bit_vector);
}

/// A word holds a union of masks exactly when it holds each of them.
pub proof fn lemma_holds_union(word: u64, a: u64, b: u64)
    ensures
        holds(word, a | b) <==> holds(word, a) && holds(word, b),
{
    assert((word & (a | b) == a | b) <==> (word & a == a && word & b == b)) by (bit_vector);
}

/// A word that fits a width still fits it after bits that fit were set,
/// after bits were cleared, and after a field that fits was overwritten.
pub proof fn lemma_fits(word: u64, mask: u64, value: u64, max: u64)
    requires
        max == 0xFFFF_FFFF || max == 0xFFFF_FFFF_FFFF_FFFF,
        word <= max,
    ensures
        mask <= max ==> with_bits(word, mask) <= max,
        without_bits(word, mask) <= max,
        value <= max ==> with_field(word, mask, value) <= max,
{
    assert(word <= 0xFFFF_FFFF && mask <= 0xFFFF_FFFF ==> (word | mask) <= 0xFFFF_FFFF)
        by (bit_vector);
    assert(word & !mask <= word) by (bit_vector);
    assert(word <= 0xFFFF_FFFF && value <= 0xFFFF_FFFF ==> ((word & !mask) | value)
        <= 0xFFFF_FFFF) by (bit_vector);
}

} // verus!
