//! From a 32-bit instruction word back to the instruction model.

use vstd::prelude::*;
use crate::constants::{
    low_bits, mask, A_POS, COND_POS, COND_SIZE, CONST_SHIFT_POS, CONST_SHIFT_SIZE, IMM_SHIFT_POS,
    IMM_SHIFT_SIZE, IMM_VALUE_POS, IMM_VALUE_SIZE, I_POS, L_POS, OFFSET_BRANCH_SIZE, OPCODE_POS,
    OPCODE_SIZE, P_POS, RD_MULT_POS, RD_POS, REG_SHIFT_POS, REG_SHIFT_SIZE, REG_SIZE, RM_POS,
    RN_MULT_POS, RN_POS, RS_POS, SHIFT_TYPE_POS, SHIFT_TYPE_SIZE, S_POS, U_POS,
};
use crate::types::{
    ConditionCode, ConditionalInstruction, Error, Instruction, InstructionBranch,
    InstructionMultiply, InstructionProcessing, InstructionTransfer, Operand2, ProcessingOpcode,
    Shift, ShiftType,
};
use crate::utils::{bit_is_set, extract_bit, signed_24_to_32, signed_24_to_32_spec};

verus! {

/// The field of `size` bits of `word` whose lowest bit is `pos`.
pub open spec fn field(word: u32, pos: u32, size: u8) -> u8 {
    ((word >> pos) & low_bits(size)) as u8
}

/// The flag that `word` holds at bit `pos`.
pub open spec fn flag_at(word: u32, pos: u32) -> bool {
    bit_is_set(word, pos as u8)
}

/// An immediate operand from the low twelve bits of `bits`.
pub open spec fn decode_operand2_immediate_spec(bits: u32) -> Operand2 {
    Operand2::ConstantShift(
        field(bits, IMM_VALUE_POS, IMM_VALUE_SIZE),
        field(bits, IMM_SHIFT_POS, IMM_SHIFT_SIZE),
    )
}

/// A register operand from the low twelve bits of `bits`. Bit 4 tells a
/// shift by a constant from a shift by a register, which needs bit 7 clear.
pub open spec fn decode_operand2_shifted_spec(bits: u32) -> Result<Operand2, Error> {
    match ShiftType::spec_from_u8(field(bits, SHIFT_TYPE_POS, SHIFT_TYPE_SIZE)) {
        None => Err(Error::BadInstructionShape),
        Some(shift_type) => if !bit_is_set(bits, 4) {
            Ok(
                Operand2::ShiftedReg(
                    field(bits, 0, REG_SIZE),
                    Shift::ConstantShift(
                        shift_type,
                        field(bits, CONST_SHIFT_POS, CONST_SHIFT_SIZE),
                    ),
                ),
            )
        } else if !bit_is_set(bits, 7) {
            Ok(
                Operand2::ShiftedReg(
                    field(bits, 0, REG_SIZE),
                    Shift::RegisterShift(shift_type, field(bits, REG_SHIFT_POS, REG_SHIFT_SIZE)),
                ),
            )
        } else {
            Err(Error::BadInstructionShape)
        },
    }
}

/// The second operand in the low twelve bits of `bits`, read as an immediate or
/// as a register.
pub open spec fn decode_operand2_spec(bits: u32, immediate: bool) -> Result<Operand2, Error> {
    if immediate {
        Ok(decode_operand2_immediate_spec(bits))
    } else {
        decode_operand2_shifted_spec(bits)
    }
}

/// Halt is the word of all zeros.
pub open spec fn decode_halt_spec(word: u32) -> Result<Instruction, Error> {
    if word == 0 {
        Ok(Instruction::Halt)
    } else {
        Err(Error::BadInstructionShape)
    }
}

/// A multiply has bits 22 to 27 clear and 1001 in bits 4 to 7.
pub open spec fn decode_multiply_spec(word: u32) -> Result<Instruction, Error> {
    if field(word, 22, 6) == 0 && field(word, 4, 4) == 0x9 {
        Ok(
            Instruction::Multiply(
                InstructionMultiply {
                    accumulate: flag_at(word, A_POS),
                    set_cond: flag_at(word, S_POS),
                    rd: field(word, RD_MULT_POS, REG_SIZE),
                    rn: field(word, RN_MULT_POS, REG_SIZE),
                    rs: field(word, RS_POS, REG_SIZE),
                    rm: field(word, RM_POS, REG_SIZE),
                },
            ),
        )
    } else {
        Err(Error::BadInstructionShape)
    }
}

/// A data-processing word has bits 26 and 27 clear, a known opcode, and an
/// operand that bit 25 marks as immediate.
pub open spec fn decode_processing_spec(word: u32) -> Result<Instruction, Error> {
    if field(word, 26, 2) != 0 {
        Err(Error::BadInstructionShape)
    } else {
        match ProcessingOpcode::spec_from_u8(field(word, OPCODE_POS, OPCODE_SIZE)) {
            None => Err(Error::BadInstructionShape),
            Some(opcode) => match decode_operand2_spec(word & 0xfff, flag_at(word, I_POS)) {
                Err(e) => Err(e),
                Ok(operand2) => Ok(
                    Instruction::Processing(
                        InstructionProcessing {
                            opcode,
                            set_cond: flag_at(word, S_POS),
                            rn: field(word, RN_POS, REG_SIZE),
                            rd: field(word, RD_POS, REG_SIZE),
                            operand2,
                        },
                    ),
                ),
            },
        }
    }
}

/// A transfer word has 01 in bits 26 and 27, bits 21 and 22 clear, and an
/// offset that bit 25 marks as a register.
pub open spec fn decode_transfer_spec(word: u32) -> Result<Instruction, Error> {
    if field(word, 26, 2) != 1 || field(word, 21, 2) != 0 {
        Err(Error::BadInstructionShape)
    } else {
        match decode_operand2_spec(word & 0xfff, !flag_at(word, I_POS)) {
            Err(e) => Err(e),
            Ok(offset) => Ok(
                Instruction::Transfer(
                    InstructionTransfer {
                        is_preindexed: flag_at(word, P_POS),
                        up_bit: flag_at(word, U_POS),
                        load: flag_at(word, L_POS),
                        rn: field(word, RN_POS, REG_SIZE),
                        rd: field(word, RD_POS, REG_SIZE),
                        offset,
                    },
                ),
            ),
        }
    }
}

/// A branch word has 1010 in bits 24 to 27; its low 24 bits are the offset in
/// two's complement.
pub open spec fn decode_branch_spec(word: u32) -> Result<Instruction, Error> {
    if field(word, 24, 4) != 0xa {
        Err(Error::BadInstructionShape)
    } else {
        Ok(
            Instruction::Branch(
                InstructionBranch {
                    offset: signed_24_to_32_spec((word & low_bits(OFFSET_BRANCH_SIZE)) as i32),
                },
            ),
        )
    }
}

/// The instruction in the low 28 bits of a word that is not zero: the first
/// of multiply, data processing, transfer and branch whose pattern matches.
pub open spec fn decode_body_spec(word: u32) -> Result<Instruction, Error> {
    if decode_multiply_spec(word) is Ok {
        decode_multiply_spec(word)
    } else if field(word, 26, 2) == 0 {
        decode_processing_spec(word)
    } else if field(word, 26, 2) == 1 {
        decode_transfer_spec(word)
    } else {
        decode_branch_spec(word)
    }
}

/// What a word decodes to. The word of all zeros is Halt under Eq. Any other
/// word needs a known condition in bits 28 to 31 and a body that matches a
/// pattern; else it has a bad shape.
pub open spec fn decode_spec(word: u32) -> Result<ConditionalInstruction, Error> {
    if word == 0 {
        Ok(ConditionalInstruction { instruction: Instruction::Halt, cond: ConditionCode::Eq })
    } else {
        match ConditionCode::spec_from_u8(field(word, COND_POS, COND_SIZE)) {
            None => Err(Error::BadInstructionShape),
            Some(cond) => match decode_body_spec(word) {
                Err(e) => Err(e),
                Ok(instruction) => Ok(ConditionalInstruction { instruction, cond }),
            },
        }
    }
}

/// A masked value is at most the mask.
pub proof fn lemma_and_le(x: u32, m: u32)
    by (bit_vector)
    ensures
        x & m <= m,
{
}

/// The values of the masks that the decoder uses.
proof fn lemma_small_masks(size: u8)
    by (bit_vector)
    requires
        size <= 8,
    ensures
        low_bits(size) <= 0xff,
        size == 2 ==> low_bits(size) == 3,
        size == 4 ==> low_bits(size) == 15,
        size == 5 ==> low_bits(size) == 31,
        size == 6 ==> low_bits(size) == 63,
        low_bits(24) == 0xff_ffff,
{
}

fn take(word: u32, pos: u32, size: u8) -> (value: u8)
    requires
        pos < 32,
        size <= 8,
    ensures
        value == field(word, pos, size),
        value <= low_bits(size),
        size == 2 ==> value < 4,
        size == 4 ==> value < 16,
        size == 5 ==> value < 32,
{
    let size_mask: u32 = mask(size);
    proof {
        lemma_small_masks(size);
        lemma_and_le(word >> pos, size_mask);
    }
    ((word >> pos) & size_mask) as u8
}

fn take_bool(word: u32, pos: u32) -> (set: bool)
    requires
        pos < 32,
    ensures
        set == flag_at(word, pos),
{
    extract_bit(&word, pos as u8)
}

/// Reads an immediate operand from the low twelve bits of `bits`.
pub fn decode_operand2_immediate(bits: u32) -> (op2: Operand2)
    ensures
        op2 == decode_operand2_immediate_spec(bits),
        op2.wf(),
{
    Operand2::ConstantShift(
        take(bits, IMM_VALUE_POS, IMM_VALUE_SIZE),
        take(bits, IMM_SHIFT_POS, IMM_SHIFT_SIZE),
    )
}

/// Reads a register operand from the low twelve bits of `bits`.
pub fn decode_operand2_shifted(bits: u32) -> (r: Result<Operand2, Error>)
    ensures
        r == decode_operand2_shifted_spec(bits),
        r matches Ok(op2) ==> op2.wf(),
{
    match ShiftType::from_u8(take(bits, SHIFT_TYPE_POS, SHIFT_TYPE_SIZE)) {
        None => Err(Error::BadInstructionShape),
        Some(shift_type) => {
            let reg = take(bits, 0, REG_SIZE);
            if !extract_bit(&bits, 4) {
                let amount = take(bits, CONST_SHIFT_POS, CONST_SHIFT_SIZE);
                Ok(Operand2::ShiftedReg(reg, Shift::ConstantShift(shift_type, amount)))
            } else if !extract_bit(&bits, 7) {
                let shift_reg = take(bits, REG_SHIFT_POS, REG_SHIFT_SIZE);
                Ok(Operand2::ShiftedReg(reg, Shift::RegisterShift(shift_type, shift_reg)))
            } else {
                Err(Error::BadInstructionShape)
            }
        },
    }
}

fn decode_operand2(bits: u32, immediate: bool) -> (r: Result<Operand2, Error>)
    ensures
        r == decode_operand2_spec(bits, immediate),
        r matches Ok(op2) ==> op2.wf(),
{
    if immediate {
        Ok(decode_operand2_immediate(bits))
    } else {
        decode_operand2_shifted(bits)
    }
}

/// Reads Halt from the word of all zeros.
pub fn decode_halt(word: u32) -> (r: Result<Instruction, Error>)
    ensures
        r == decode_halt_spec(word),
{
    if word == 0 {
        Ok(Instruction::Halt)
    } else {
        Err(Error::BadInstructionShape)
    }
}

/// Reads a multiply instruction; bits 28 to 31 are not looked at.
pub fn decode_multiply(word: u32) -> (r: Result<Instruction, Error>)
    ensures
        r == decode_multiply_spec(word),
        r matches Ok(i) ==> i.wf(),
{
    if take(word, 22, 6) == 0 && take(word, 4, 4) == 0x9 {
        Ok(
            Instruction::Multiply(
                InstructionMultiply {
                    accumulate: take_bool(word, A_POS),
                    set_cond: take_bool(word, S_POS),
                    rd: take(word, RD_MULT_POS, REG_SIZE),
                    rn: take(word, RN_MULT_POS, REG_SIZE),
                    rs: take(word, RS_POS, REG_SIZE),
                    rm: take(word, RM_POS, REG_SIZE),
                },
            ),
        )
    } else {
        Err(Error::BadInstructionShape)
    }
}

/// Reads a data-processing instruction; bits 28 to 31 are not looked at.
pub fn decode_processing(word: u32) -> (r: Result<Instruction, Error>)
    ensures
        r == decode_processing_spec(word),
        r matches Ok(i) ==> i.wf(),
{
    if take(word, 26, 2) != 0 {
        return Err(Error::BadInstructionShape);
    }
    match ProcessingOpcode::from_u8(take(word, OPCODE_POS, OPCODE_SIZE)) {
        None => Err(Error::BadInstructionShape),
        Some(opcode) => match decode_operand2(word & 0xfff, take_bool(word, I_POS)) {
            Err(e) => Err(e),
            Ok(operand2) => Ok(
                Instruction::Processing(
                    InstructionProcessing {
                        opcode,
                        set_cond: take_bool(word, S_POS),
                        rn: take(word, RN_POS, REG_SIZE),
                        rd: take(word, RD_POS, REG_SIZE),
                        operand2,
                    },
                ),
            ),
        },
    }
}

/// Reads a transfer instruction; bits 28 to 31 are not looked at.
pub fn decode_transfer(word: u32) -> (r: Result<Instruction, Error>)
    ensures
        r == decode_transfer_spec(word),
        r matches Ok(i) ==> i.wf(),
{
    if take(word, 26, 2) != 1 || take(word, 21, 2) != 0 {
        return Err(Error::BadInstructionShape);
    }
    match decode_operand2(word & 0xfff, !take_bool(word, I_POS)) {
        Err(e) => Err(e),
        Ok(offset) => Ok(
            Instruction::Transfer(
                InstructionTransfer {
                    is_preindexed: take_bool(word, P_POS),
                    up_bit: take_bool(word, U_POS),
                    load: take_bool(word, L_POS),
                    rn: take(word, RN_POS, REG_SIZE),
                    rd: take(word, RD_POS, REG_SIZE),
                    offset,
                },
            ),
        ),
    }
}

/// Reads a branch; bits 28 to 31 are not looked at.
pub fn decode_branch(word: u32) -> (r: Result<Instruction, Error>)
    ensures
        r == decode_branch_spec(word),
        r matches Ok(i) ==> i.wf(),
{
    if take(word, 24, 4) != 0xa {
        return Err(Error::BadInstructionShape);
    }
    let offset_mask: u32 = mask(OFFSET_BRANCH_SIZE);
    let low: u32 = word & offset_mask;
    proof {
        lemma_small_masks(0);
        lemma_and_le(word, offset_mask);
    }
    Ok(Instruction::Branch(InstructionBranch { offset: signed_24_to_32(low as i32) }))
}

/// Decodes an instruction word. The word of all zeros is Halt; any other word
/// decodes if its condition is known and its body is a multiply, a
/// data-processing instruction, a transfer or a branch, and has a bad shape if
/// not. What comes out is well formed.
pub fn decode(instr: &u32) -> (r: Result<ConditionalInstruction, Error>)
    ensures
        r == decode_spec(*instr),
        r matches Ok(i) ==> i.wf(),
        r matches Err(e) ==> e == Error::BadInstructionShape,
{
    let word: u32 = *instr;
    if word == 0 {
        return Ok(
            ConditionalInstruction { instruction: Instruction::Halt, cond: ConditionCode::Eq },
        );
    }
    let cond = match ConditionCode::from_u8(take(word, COND_POS, COND_SIZE)) {
        None => {
            return Err(Error::BadInstructionShape);
        },
        Some(cond) => cond,
    };
    let multiply = decode_multiply(word);
    let body = if multiply.is_ok() {
        multiply
    } else {
        let class: u8 = take(word, 26, 2);
        if class == 0 {
            decode_processing(word)
        } else if class == 1 {
            decode_transfer(word)
        } else {
            decode_branch(word)
        }
    };
    match body {
        Err(e) => Err(e),
        Ok(instruction) => Ok(ConditionalInstruction { instruction, cond }),
    }
}

} // verus!
