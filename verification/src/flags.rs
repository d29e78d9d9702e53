//! Bit flags of window styles.

use vstd::prelude::*;
use vstd::std_specs::cmp::PartialEqSpec;
use vstd::std_specs::ops::BitAndSpec;

verus! {

/// Whether every bit of `flag` is set in `bitset`.
pub open spec fn spec_has_flag(bitset: u32, flag: u32) -> bool {
    bitset & flag == flag
}

/// Tests whether `bitset` holds every bit of `flag`: whether what the two
/// have in common is the flag itself.
///
/// This is for any type with `&` and `==`. Where the type's `&` and `==`
/// keep to their specifications, as they do for every integer type, the
/// result is that of the specifications; on 32-bit words it is
/// `spec_has_flag`.
pub fn has_flag<T>(bitset: T, flag: T) -> (held: bool) where
    T: Copy + PartialEq + core::ops::BitAnd<T, Output = T>,

    requires
        bitset.bitand_req(flag),
    ensures
        T::obeys_bitand_spec() && T::obeys_eq_spec() ==> held == bitset.bitand_spec(flag).eq_spec(
            &flag,
        ),
{
    bitset & flag == flag
}

/// On 32-bit words `&` and `==` keep to their specifications and ask for
/// nothing, so that `has_flag` gives `spec_has_flag` there.
pub proof fn lemma_has_flag_on_words(bitset: u32, flag: u32)
    ensures
        <u32 as BitAndSpec<u32>>::obeys_bitand_spec(),
        <u32 as PartialEqSpec<u32>>::obeys_eq_spec(),
        bitset.bitand_req(flag),
        bitset.bitand_spec(flag).eq_spec(&flag) == spec_has_flag(bitset, flag),
{
}

/// Whether bit number `index` of `word` is set.
pub open spec fn bit_is_set(word: u32, index: u32) -> bool {
    (word >> index) & 1 == 1
}

/// Where a set of bits holds a flag, each bit of the flag is a bit of the
/// set.
pub proof fn lemma_has_flag_bits(bitset: u32, flag: u32, index: u32)
    requires
        spec_has_flag(bitset, flag),
        index < 32,
        bit_is_set(flag, index),
    ensures
        bit_is_set(bitset, index),
{
    assert((bitset >> index) & 1 == 1) by (bit_vector)
        requires
            bitset & flag == flag,
            index < 32,
            (flag >> index) & 1 == 1,
    ;
}

/// Where a set of bits does not hold a flag, some bit of the flag is
/// missing from the set.
pub proof fn lemma_missing_flag_bit(bitset: u32, flag: u32) -> (index: u32)
    requires
        !spec_has_flag(bitset, flag),
    ensures
        index < 32,
        bit_is_set(flag, index),
        !bit_is_set(bitset, index),
{
    let missing: u32 = flag & !bitset;
    assert(missing >> 0u32 != 0) by (bit_vector)
        requires
            bitset & flag != flag,
            missing == flag & !bitset,
    ;
    let index = lowest_set_bit(missing, 0);
    assert((flag >> index) & 1 == 1 && (bitset >> index) & 1 != 1) by (bit_vector)
        requires
            missing == flag & !bitset,
            index < 32,
            (missing >> index) & 1 == 1,
    ;
    index
}

/// The number of the lowest set bit of `word` at or above `from`.
proof fn lowest_set_bit(word: u32, from: u32) -> (index: u32)
    requires
        from < 32,
        word >> from != 0,
    ensures
        from <= index < 32,
        bit_is_set(word, index),
    decreases 32 - from,
{
    if (word >> from) & 1 == 1 {
        from
    } else {
        assert(from < 31 && word >> ((from + 1) as u32) != 0) by (bit_vector)
            requires
                from < 32,
                word >> from != 0,
                (word >> from) & 1 != 1,
        ;
        lowest_set_bit(word, (from + 1) as u32)
    }
}

/// Every set of bits holds the empty flag and itself; a union holds each
/// of its parts; and a flag held by a part is held by the whole.
pub proof fn lemma_has_flag_laws(a: u32, b: u32, c: u32)
    ensures
        spec_has_flag(a, 0),
        spec_has_flag(a, a),
        spec_has_flag(a | b, a),
        spec_has_flag(a | b, b),
        spec_has_flag(a, b) && spec_has_flag(b, c) ==> spec_has_flag(a, c),
        spec_has_flag(a, b) && spec_has_flag(a, c) <==> spec_has_flag(a, b | c),
{
    assert(a & 0 == 0) by (bit_vector);
    assert(a & a == a) by (bit_vector);
    assert((a | b) & a == a) by (bit_vector);
    assert((a | b) & b == b) by (bit_vector);
    assert(a & b == b && b & c == c ==> a & c == c) by (bit_vector);
    assert((a & b == b && a & c == c) <==> a & (b | c) == (b | c)) by (bit_vector);
}

} // verus!
