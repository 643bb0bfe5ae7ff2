//! From the instruction model to the 32-bit instruction word.

use vstd::prelude::*;
use crate::constants::{
    A_POS, COND_POS, CONST_SHIFT_POS, IMM_SHIFT_POS, I_POS, L_POS, OPCODE_POS, P_POS, RD_MULT_POS,
    RD_POS, REG_SHIFT_POS, RN_MULT_POS, RN_POS, RS_POS, SHIFT_TYPE_POS, S_POS, U_POS,
};
use crate::types::{
    ConditionalInstruction, Instruction, InstructionBranch, InstructionMultiply,
    InstructionProcessing, InstructionTransfer, Operand2, Shift,
};

verus! {

/// A flag as the bit it occupies.
pub open spec fn flag(b: bool) -> u32 {
    if b {
        1
    } else {
        0
    }
}

/// Operand bits of an immediate: the rotate in bits 8 to 11 over the value.
pub open spec fn immediate_bits(value: u8, rotate: u8) -> u32 {
    (rotate as u32) << IMM_SHIFT_POS | (value as u32)
}

/// Operand bits of a register shifted by a constant: the amount in bits 7 to
/// 11, the shift type in bits 5 and 6, bit 4 clear, the register below.
pub open spec fn constant_shift_bits(amount: u8, shift_type: u8, reg: u8) -> u32 {
    (amount as u32) << CONST_SHIFT_POS | (shift_type as u32) << SHIFT_TYPE_POS | (reg as u32)
}

/// Operand bits of a register shifted by a register: the shift register in
/// bits 8 to 11, the shift type in bits 5 and 6, bit 4 set, the register below.
pub open spec fn register_shift_bits(shift_reg: u8, shift_type: u8, reg: u8) -> u32 {
    0x10u32 | (shift_reg as u32) << REG_SHIFT_POS | (shift_type as u32) << SHIFT_TYPE_POS | (
    reg as u32)
}

/// Body of a data-processing word: I at bit 25, the opcode at 21, S at 20,
/// Rn at 16, Rd at 12, the operand below.
pub open spec fn processing_word(
    immediate: bool,
    opcode: u8,
    set_cond: bool,
    rn: u8,
    rd: u8,
    operand2: u32,
) -> u32 {
    flag(immediate) << I_POS | (opcode as u32) << OPCODE_POS | flag(set_cond) << S_POS | (
    rn as u32) << RN_POS | (rd as u32) << RD_POS | operand2
}

/// Body of a multiply word: the pattern 1001 in bits 4 to 7, A at bit 21, S at
/// 20, Rd at 16, Rn at 12, Rs at 8, Rm at 0.
pub open spec fn multiply_word(
    accumulate: bool,
    set_cond: bool,
    rd: u8,
    rn: u8,
    rs: u8,
    rm: u8,
) -> u32 {
    0x90u32 | flag(accumulate) << A_POS | flag(set_cond) << S_POS | (rd as u32) << RD_MULT_POS | (
    rn as u32) << RN_MULT_POS | (rs as u32) << RS_POS | (rm as u32)
}

/// Body of a transfer word: bit 26 set, I at bit 25, P at 24, U at 23, L at
/// 20, Rn at 16, Rd at 12, the offset below.
pub open spec fn transfer_word(
    shifted: bool,
    preindexed: bool,
    up: bool,
    load: bool,
    rn: u8,
    rd: u8,
    offset: u32,
) -> u32 {
    0x0400_0000u32 | flag(shifted) << I_POS | flag(preindexed) << P_POS | flag(up) << U_POS | flag(
        load,
    ) << L_POS | (rn as u32) << RN_POS | (rd as u32) << RD_POS | offset
}

/// Body of a branch word: 1010 in bits 24 to 27 over the low 24 bits of the offset.
pub open spec fn branch_word(offset: i32) -> u32 {
    0x0a00_0000u32 | ((offset as u32) & 0xff_ffffu32)
}

/// A word: the condition code in bits 28 to 31 over the body.
pub open spec fn with_cond(cond: u8, body: u32) -> u32 {
    (cond as u32) << COND_POS | body
}

/// The twelve bits of a second operand.
pub open spec fn encode_operand2_spec(op2: Operand2) -> u32 {
    match op2 {
        Operand2::ConstantShift(value, rotate) => immediate_bits(value, rotate),
        Operand2::ShiftedReg(reg, Shift::ConstantShift(shift_type, amount)) => constant_shift_bits(
            amount,
            shift_type.spec_code(),
            reg,
        ),
        Operand2::ShiftedReg(reg, Shift::RegisterShift(shift_type, shift_reg)) => {
            register_shift_bits(shift_reg, shift_type.spec_code(), reg)
        },
    }
}

/// The body of a data-processing instruction. The immediate flag is set for
/// an immediate operand.
pub open spec fn encode_processing_spec(p: InstructionProcessing) -> u32 {
    processing_word(
        p.operand2 is ConstantShift,
        p.opcode.spec_code(),
        p.set_cond,
        p.rn,
        p.rd,
        encode_operand2_spec(p.operand2),
    )
}

/// The body of a multiply instruction.
pub open spec fn encode_multiply_spec(m: InstructionMultiply) -> u32 {
    multiply_word(m.accumulate, m.set_cond, m.rd, m.rn, m.rs, m.rm)
}

/// The body of a transfer instruction. Here the immediate flag is set for a
/// register offset.
pub open spec fn encode_transfer_spec(t: InstructionTransfer) -> u32 {
    transfer_word(
        t.offset is ShiftedReg,
        t.is_preindexed,
        t.up_bit,
        t.load,
        t.rn,
        t.rd,
        encode_operand2_spec(t.offset),
    )
}

/// The body of a branch.
pub open spec fn encode_branch_spec(b: InstructionBranch) -> u32 {
    branch_word(b.offset)
}

/// The body of an instruction: its word without the condition. Halt has none.
pub open spec fn encode_body_spec(i: Instruction) -> u32 {
    match i {
        Instruction::Processing(p) => encode_processing_spec(p),
        Instruction::Transfer(t) => encode_transfer_spec(t),
        Instruction::Multiply(m) => encode_multiply_spec(m),
        Instruction::Branch(b) => encode_branch_spec(b),
        Instruction::Halt => 0,
    }
}

/// The instruction word: the condition in the top four bits, over the body.
pub open spec fn encode_spec(instr: ConditionalInstruction) -> u32 {
    with_cond(instr.cond.spec_code(), encode_body_spec(instr.instruction))
}

fn flag_bit(b: bool) -> (bit: u32)
    ensures
        bit == flag(b),
{
    if b {
        1
    } else {
        0
    }
}

/// Encodes an instruction as its 32-bit word.
pub fn encode(instr: ConditionalInstruction) -> (word: u32)
    ensures
        word == encode_spec(instr),
{
    let cond: u32 = (instr.cond.code() as u32) << COND_POS;
    let body: u32 = match instr.instruction {
        Instruction::Processing(p) => encode_processing(p),
        Instruction::Transfer(t) => encode_transfer(t),
        Instruction::Multiply(m) => encode_multiply(m),
        Instruction::Branch(b) => encode_branch(b),
        Instruction::Halt => 0,
    };
    cond | body
}

/// The body of a data-processing instruction.
pub fn encode_processing(instr: InstructionProcessing) -> (word: u32)
    ensures
        word == encode_processing_spec(instr),
{
    let is_immediate = match instr.operand2 {
        Operand2::ConstantShift(_, _) => true,
        Operand2::ShiftedReg(_, _) => false,
    };
    flag_bit(is_immediate) << I_POS | (instr.opcode.code() as u32) << OPCODE_POS | flag_bit(
        instr.set_cond,
    ) << S_POS | (instr.rn as u32) << RN_POS | (instr.rd as u32) << RD_POS | encode_operand2(
        instr.operand2,
    )
}

/// The body of a multiply instruction.
pub fn encode_multiply(instr: InstructionMultiply) -> (word: u32)
    ensures
        word == encode_multiply_spec(instr),
{
    0x90u32 | flag_bit(instr.accumulate) << A_POS | flag_bit(instr.set_cond) << S_POS | (
    instr.rd as u32) << RD_MULT_POS | (instr.rn as u32) << RN_MULT_POS | (instr.rs as u32)
        << RS_POS | (instr.rm as u32)
}

/// The body of a transfer instruction.
pub fn encode_transfer(instr: InstructionTransfer) -> (word: u32)
    ensures
        word == encode_transfer_spec(instr),
{
    let is_shifted_r = match instr.offset {
        Operand2::ConstantShift(_, _) => false,
        Operand2::ShiftedReg(_, _) => true,
    };
    0x0400_0000u32 | flag_bit(is_shifted_r) << I_POS | flag_bit(instr.is_preindexed) << P_POS
        | flag_bit(instr.up_bit) << U_POS | flag_bit(instr.load) << L_POS | (instr.rn as u32)
        << RN_POS | (instr.rd as u32) << RD_POS | encode_operand2(instr.offset)
}

/// The body of a branch.
pub fn encode_branch(instr: InstructionBranch) -> (word: u32)
    ensures
        word == encode_branch_spec(instr),
{
    0x0a00_0000u32 | ((instr.offset as u32) & 0xff_ffffu32)
}

/// The twelve bits of a second operand.
pub fn encode_operand2(op2: Operand2) -> (bits: u32)
    ensures
        bits == encode_operand2_spec(op2),
{
    match op2 {
        Operand2::ConstantShift(value, rotate) => (rotate as u32) << IMM_SHIFT_POS | (value as u32),
        Operand2::ShiftedReg(reg, Shift::ConstantShift(shift_type, amount)) => (amount as u32)
            << CONST_SHIFT_POS | (shift_type.code() as u32) << SHIFT_TYPE_POS | (reg as u32),
        Operand2::ShiftedReg(reg, Shift::RegisterShift(shift_type, shift_reg)) => 0x10u32 | (
        shift_reg as u32) << REG_SHIFT_POS | (shift_type.code() as u32) << SHIFT_TYPE_POS | (
        reg as u32),
    }
}

} // verus!
