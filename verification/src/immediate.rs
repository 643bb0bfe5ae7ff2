//! Literals as immediate operands: an eight-bit value and a four-bit rotate.

use vstd::prelude::*;
use crate::alu::{barrel_shifter_spec, rotate_right, rotate_right_spec};
use crate::types::{Error, Operand2};

verus! {

/// The word that the immediate `(value, rotate)` stands for: the value
/// rotated right by twice the rotate.
pub open spec fn immediate_value(value: u8, rotate: u8) -> u32 {
    rotate_right_spec(value as u32, (2 * rotate) as u32)
}

/// Some eight-bit value under the rotate `rotate` stands for `v`.
pub open spec fn representable_with(v: u32, rotate: u8) -> bool {
    exists|value: u8| #[trigger] immediate_value(value, rotate) == v
}

/// Some immediate stands for `v`.
pub open spec fn representable(v: u32) -> bool {
    exists|rotate: u8| rotate < 16 && #[trigger] representable_with(v, rotate)
}

/// The only value that can stand for `v` under the rotate `rotate`: `v`
/// rotated left by twice the rotate.
pub open spec fn candidate(v: u32, rotate: u8) -> u32 {
    rotate_right_spec(v, (32 - 2 * rotate) as u32)
}

/// Rotating left undoes rotating right: under a rotate below 16, a value
/// stands for `v` exactly if it is the candidate.
pub proof fn lemma_candidate(v: u32, rotate: u8, value: u8)
    by (bit_vector)
    requires
        rotate < 16,
    ensures
        immediate_value(value, rotate) == v <==> candidate(v, rotate) == value as u32,
{
}

/// Under a rotate below 16, `v` is representable exactly if its candidate
/// fits in eight bits.
pub proof fn lemma_representable_with(v: u32, rotate: u8)
    requires
        rotate < 16,
    ensures
        representable_with(v, rotate) <==> candidate(v, rotate) <= 0xff,
{
    if candidate(v, rotate) <= 0xff {
        let value = candidate(v, rotate) as u8;
        lemma_candidate(v, rotate, value);
        assert(immediate_value(value, rotate) == v);
    }
    if representable_with(v, rotate) {
        let value = choose|value: u8| #[trigger] immediate_value(value, rotate) == v;
        lemma_candidate(v, rotate, value);
    }
}

/// The least rotate from `from` on under which `v` is representable.
pub open spec fn least_rotate(v: u32, from: u8) -> Option<u8>
    decreases 16 - from,
{
    if from >= 16 {
        None
    } else if candidate(v, from) <= 0xff {
        Some(from)
    } else {
        least_rotate(v, (from + 1) as u8)
    }
}

/// `v` as an immediate operand: of the immediates that stand for it the one
/// with the least rotate, and out of range where there is none.
pub open spec fn expression_to_operand2_spec(v: u32) -> Result<Operand2, Error> {
    match least_rotate(v, 0) {
        Some(rotate) => Ok(Operand2::ConstantShift(candidate(v, rotate) as u8, rotate)),
        None => Err(Error::OperandOutOfRange),
    }
}

proof fn lemma_least_rotate(v: u32, from: u8)
    requires
        from <= 16,
    ensures
        match least_rotate(v, from) {
            Some(rotate) => from <= rotate < 16 && candidate(v, rotate) <= 0xff && forall|
                smaller: u8,
            |
                from <= smaller < rotate ==> candidate(v, smaller) > 0xff,
            None => forall|smaller: u8| from <= smaller < 16 ==> candidate(v, smaller) > 0xff,
        },
    decreases 16 - from,
{
    if from < 16 && candidate(v, from) > 0xff {
        lemma_least_rotate(v, (from + 1) as u8);
    }
}

/// The immediate chosen for a word stands for it and has the least rotate of
/// all that do, and no other value stands for the word under that rotate;
/// none is chosen only where none stands for the word. A word of at most
/// eight bits is its own value, under rotate 0.
pub proof fn lemma_immediate_is_least(v: u32)
    ensures
        representable(v) <==> expression_to_operand2_spec(v) is Ok,
        expression_to_operand2_spec(v) matches Ok(op2) ==> {
            &&& op2 matches Operand2::ConstantShift(value, rotate)
            &&& rotate < 16
            &&& immediate_value(value, rotate) == v
            &&& forall|smaller: u8| smaller < rotate ==> !#[trigger] representable_with(v, smaller)
            &&& forall|other: u8| #[trigger] immediate_value(other, rotate) == v ==> other == value
        },
        v <= 0xff ==> expression_to_operand2_spec(v) == Ok::<Operand2, Error>(
            Operand2::ConstantShift(v as u8, 0),
        ),
{
    lemma_least_rotate(v, 0);
    assert forall|rotate: u8| rotate < 16 implies (#[trigger] representable_with(v, rotate)
        <==> candidate(v, rotate) <= 0xff) by {
        lemma_representable_with(v, rotate);
    }
    match least_rotate(v, 0) {
        Some(rotate) => {
            lemma_candidate(v, rotate, candidate(v, rotate) as u8);
            assert(representable_with(v, rotate));
            assert forall|other: u8| #[trigger] immediate_value(other, rotate) == v implies other
                == candidate(v, rotate) as u8 by {
                lemma_candidate(v, rotate, other);
            }
        },
        None => {},
    }
}

/// Writes `value` as an immediate operand: of the immediates that stand for
/// it the one with the least rotate. Where none stands for it the operand
/// is out of range.
pub fn expression_to_operand2(value: u32) -> (r: Result<Operand2, Error>)
    ensures
        r == expression_to_operand2_spec(value),
{
    let mut rotate: u8 = 0;
    while rotate < 16
        invariant
            rotate <= 16,
            least_rotate(value, 0) == least_rotate(value, rotate),
        decreases 16 - rotate,
    {
        let turned: u32 = rotate_right(value, (32 - 2 * rotate) as u32);
        if turned <= 0xff {
            return Ok(Operand2::ConstantShift(turned as u8, rotate));
        }
        rotate = rotate + 1;
    }
    Err(Error::OperandOutOfRange)
}

/// An immediate operand resolves to the word it stands for, whatever the
/// registers hold.
pub proof fn lemma_immediate_resolves(value: u8, rotate: u8, regs: Seq<u32>)
    requires
        rotate < 16,
    ensures
        barrel_shifter_spec(Operand2::ConstantShift(value, rotate), regs).0 == immediate_value(
            value,
            rotate,
        ),
{
}

} // verus!
