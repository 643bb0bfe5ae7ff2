//! Small helpers on the bits of a word.

use vstd::prelude::*;

verus! {

/// Bit `index` of `word` is set.
pub open spec fn bit_is_set(word: u32, index: u8) -> bool {
    (word >> index) & 1 == 1
}

/// The number that a 24-bit field writes in two's complement.
pub open spec fn signed_24(field: int) -> int {
    if field < 0x80_0000 {
        field
    } else {
        field - 0x100_0000
    }
}

/// `num` with bits 24 to 31 set if bit 23 is set, and unchanged if not.
pub open spec fn signed_24_to_32_spec(num: i32) -> i32 {
    if bit_is_set(num as u32, 23) {
        num | (-0x100_0000i32)
    } else {
        num
    }
}

/// Whether bit `index` of `word` is set.
pub fn extract_bit(word: &u32, index: u8) -> (set: bool)
    requires
        index < 32,
    ensures
        set == bit_is_set(*word, index),
{
    ((*word >> index) & 1) == 1
}

/// Extends the sign of a 24-bit number to 32 bits: where bit 23 of `num` is
/// set, so are bits 24 to 31 of the result. On a number of at most 24 bits
/// the result is what those bits write in two's complement.
pub fn signed_24_to_32(num: i32) -> (extended: i32)
    ensures
        extended == signed_24_to_32_spec(num),
        0 <= num < 0x100_0000 ==> extended == signed_24(num as int),
{
    proof {
        lemma_sign_extension(num);
    }
    if extract_bit(&(num as u32), 23) {
        num | (-0x100_0000i32)
    } else {
        num
    }
}

/// On a 24-bit field, setting the top byte when bit 23 is set subtracts 2^24.
pub proof fn lemma_sign_extension(num: i32)
    ensures
        0 <= num < 0x100_0000 ==> signed_24_to_32_spec(num) == signed_24(num as int),
{
    assert(0 <= num < 0x100_0000 ==> (((num as u32) >> 23u8) & 1 == 1 <==> num >= 0x80_0000))
        by (bit_vector);
    assert(0x80_0000 <= num < 0x100_0000 ==> (num | (-0x100_0000i32)) == num - 0x100_0000)
        by (bit_vector);
}

} // verus!
