//! The barrel shifter and the arithmetic-logic unit.

use vstd::prelude::*;
use crate::constants::NUM_REGS;
use crate::types::{Operand2, ProcessingOpcode, Shift, ShiftType};
use crate::utils::{bit_is_set, extract_bit};

verus! {

/// `x` rotated right by `n` places, `n` taken modulo 32.
pub open spec fn rotate_right_spec(x: u32, n: u32) -> u32 {
    let k = n % 32;
    if k == 0 {
        x
    } else {
        (x >> k) | (x << ((32 - k) as u32))
    }
}

/// `x` shifted right by `n < 32` places, bit 31 filling the places it leaves.
pub open spec fn arithmetic_shift_right_spec(x: u32, n: u32) -> u32 {
    if bit_is_set(x, 31) {
        (x >> n) | !(0xffff_ffffu32 >> n)
    } else {
        x >> n
    }
}

/// The result and the carry-out of shifting `x` by `n`.
///
/// A shift by 0 leaves `x` and has no carry. Otherwise:
/// - Lsl shifts left, to 0 from 32 places on; the carry is the last bit
///   shifted out, bit `32 - n`, and none from 33 places on.
/// - Lsr shifts right, to 0 from 32 places on; the carry is bit `n - 1`, and
///   none from 33 places on.
/// - Asr shifts right and keeps the sign; from 32 places on every bit is the
///   sign. The carry is bit `n - 1`, the sign from 32 places on.
/// - Ror rotates right by `n` modulo 32; the carry is bit `(n - 1)` modulo 32.
pub open spec fn shift_spec(x: u32, n: u8, shift_type: ShiftType) -> (u32, bool) {
    if n == 0 {
        (x, false)
    } else {
        match shift_type {
            ShiftType::Lsl => (
                if n < 32 {
                    x << n
                } else {
                    0
                },
                n <= 32 && bit_is_set(x, (32 - n) as u8),
            ),
            ShiftType::Lsr => (
                if n < 32 {
                    x >> n
                } else {
                    0
                },
                n <= 32 && bit_is_set(x, (n - 1) as u8),
            ),
            ShiftType::Asr => if n < 32 {
                (arithmetic_shift_right_spec(x, n as u32), bit_is_set(x, (n - 1) as u8))
            } else {
                (arithmetic_shift_right_spec(x, 31), bit_is_set(x, 31))
            },
            ShiftType::Ror => (rotate_right_spec(x, n as u32), bit_is_set(x, ((n - 1) % 32) as u8)),
        }
    }
}

/// The value and the carry-out of a second operand, given the registers.
///
/// An immediate is its value rotated right by twice its rotate. A register
/// is shifted by a constant, or by the low byte of another register.
pub open spec fn barrel_shifter_spec(op2: Operand2, regs: Seq<u32>) -> (u32, bool) {
    match op2 {
        Operand2::ConstantShift(value, rotate) => shift_spec(
            value as u32,
            (2 * rotate) as u8,
            ShiftType::Ror,
        ),
        Operand2::ShiftedReg(reg, Shift::ConstantShift(shift_type, amount)) => shift_spec(
            regs[reg as int],
            amount,
            shift_type,
        ),
        Operand2::ShiftedReg(reg, Shift::RegisterShift(shift_type, shift_reg)) => shift_spec(
            regs[reg as int],
            (regs[shift_reg as int] & 0xff) as u8,
            shift_type,
        ),
    }
}

/// `i` reduced to a 32-bit word.
pub open spec fn wrap32(i: int) -> u32 {
    (i % 0x1_0000_0000) as u32
}

/// The result and the carry of the arithmetic-logic unit on two words.
///
/// The logical operations and Mov have no carry. A subtraction carries where
/// it does not borrow, an addition where the sum leaves 32 bits.
pub open spec fn alu_spec(op1: u32, op2: u32, opcode: ProcessingOpcode) -> (u32, bool) {
    match opcode {
        ProcessingOpcode::And | ProcessingOpcode::Tst => (op1 & op2, false),
        ProcessingOpcode::Eor | ProcessingOpcode::Teq => (op1 ^ op2, false),
        ProcessingOpcode::Orr => (op1 | op2, false),
        ProcessingOpcode::Mov => (op2, false),
        ProcessingOpcode::Sub | ProcessingOpcode::Cmp => (wrap32(op1 - op2), op1 >= op2),
        ProcessingOpcode::Rsb => (wrap32(op2 - op1), op2 >= op1),
        ProcessingOpcode::Add => (wrap32(op1 + op2), op1 + op2 > 0xffff_ffff),
    }
}

/// Rotates `x` right by `n` places, `n` taken modulo 32.
pub fn rotate_right(x: u32, n: u32) -> (r: u32)
    ensures
        r == rotate_right_spec(x, n),
{
    let k: u32 = n % 32;
    if k == 0 {
        x
    } else {
        (x >> k) | (x << (32 - k))
    }
}

fn arithmetic_shift_right(x: u32, n: u32) -> (r: u32)
    requires
        n < 32,
    ensures
        r == arithmetic_shift_right_spec(x, n),
{
    if extract_bit(&x, 31) {
        (x >> n) | !(0xffff_ffffu32 >> n)
    } else {
        x >> n
    }
}

/// Shifts `to_shift` by `shift_amt` as `shift_type` says, and gives the
/// carry-out beside the result.
pub fn shift(to_shift: u32, shift_amt: u8, shift_type: ShiftType) -> (r: (u32, bool))
    ensures
        r == shift_spec(to_shift, shift_amt, shift_type),
{
    if shift_amt == 0 {
        return (to_shift, false);
    }
    match shift_type {
        ShiftType::Lsl => {
            let result: u32 = if shift_amt < 32 {
                to_shift << shift_amt
            } else {
                0
            };
            let carry = shift_amt <= 32 && extract_bit(&to_shift, 32 - shift_amt);
            (result, carry)
        },
        ShiftType::Lsr => {
            let result: u32 = if shift_amt < 32 {
                to_shift >> shift_amt
            } else {
                0
            };
            let carry = shift_amt <= 32 && extract_bit(&to_shift, shift_amt - 1);
            (result, carry)
        },
        ShiftType::Asr => {
            if shift_amt < 32 {
                (
                    arithmetic_shift_right(to_shift, shift_amt as u32),
                    extract_bit(&to_shift, shift_amt - 1),
                )
            } else {
                (arithmetic_shift_right(to_shift, 31), extract_bit(&to_shift, 31))
            }
        },
        ShiftType::Ror => (
            rotate_right(to_shift, shift_amt as u32),
            extract_bit(&to_shift, (shift_amt - 1) % 32),
        ),
    }
}

/// Resolves a second operand into its value and carry-out.
pub fn barrel_shifter(op2: Operand2, register_file: &[u32; NUM_REGS]) -> (r: (u32, bool))
    requires
        op2.wf(),
    ensures
        r == barrel_shifter_spec(op2, register_file@),
{
    match op2 {
        Operand2::ConstantShift(value, rotate) => shift(value as u32, 2 * rotate, ShiftType::Ror),
        Operand2::ShiftedReg(reg, Shift::ConstantShift(shift_type, amount)) => shift(
            register_file[reg as usize],
            amount,
            shift_type,
        ),
        Operand2::ShiftedReg(reg, Shift::RegisterShift(shift_type, shift_reg)) => {
            let by: u32 = register_file[shift_reg as usize] & 0xff;
            assert(by <= 0xff) by {
                crate::decode::lemma_and_le(register_file[shift_reg as int], 0xff);
            }
            shift(register_file[reg as usize], by as u8, shift_type)
        },
    }
}

/// The arithmetic-logic unit on the two's complement readings of two words:
/// each operand and the result stand for the word with the same 32 bits.
pub fn perform_processing_operation(op1: i32, op2: i32, opcode: ProcessingOpcode) -> (r: (
    i32,
    bool,
))
    ensures
        r.0 == alu_spec(op1 as u32, op2 as u32, opcode).0 as i32,
        r.1 == alu_spec(op1 as u32, op2 as u32, opcode).1,
{
    let a: u32 = op1 as u32;
    let b: u32 = op2 as u32;
    let (result, carry): (u32, bool) = match opcode {
        ProcessingOpcode::And | ProcessingOpcode::Tst => (a & b, false),
        ProcessingOpcode::Eor | ProcessingOpcode::Teq => (a ^ b, false),
        ProcessingOpcode::Orr => (a | b, false),
        ProcessingOpcode::Mov => (b, false),
        ProcessingOpcode::Sub | ProcessingOpcode::Cmp => (a.wrapping_sub(b), a >= b),
        ProcessingOpcode::Rsb => (b.wrapping_sub(a), b >= a),
        ProcessingOpcode::Add => (a.wrapping_add(b), a > 0xffff_ffff - b),
    };
    (result as i32, carry)
}

} // verus!
