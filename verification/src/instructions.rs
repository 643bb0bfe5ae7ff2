//! The rules of the grammar for whole instructions. Each reads from a
//! position of a text on and gives the instruction, the word it adds to the
//! literal pool if it adds one, and the position where it stopped.

use vstd::prelude::*;
use crate::constants::{PC, PIPELINE_OFFSET};
use crate::immediate::{expression_to_operand2, expression_to_operand2_spec};
use crate::operands::{
    comma_space, comma_space_spec, condition_code, condition_code_spec, expression,
    expression_spec, literal, literal_spec, operand2, operand2_spec, processing_opcode,
    processing_opcode_spec, reg, reg_spec, shifttype, shifttype_spec,
};
use crate::symbols::{address_of, SymbolTable};
use crate::text::{
    agrees, char_at, class_at, is_char_at, is_class_at, is_word2_at, is_word3_at, lemma_run_end,
    number, number_spec, number_value, run1, run1_spec, run_end, skip_run, word_at, CharClass,
    Parsed,
};
use crate::types::{
    ConditionCode, ConditionalInstruction, Error, Instruction, InstructionBranch,
    InstructionMultiply, InstructionProcessing, InstructionTransfer, Operand2, ProcessingOpcode,
    Shift, ShiftType,
};
use crate::utils::signed_24;

verus! {

/// An instruction and the word that it adds to the literal pool, if any.
pub type Assembled = (ConditionalInstruction, Option<u32>);

/// An instruction that always executes and adds nothing to the pool.
pub open spec fn plain(instruction: Instruction) -> Assembled {
    (ConditionalInstruction { instruction, cond: ConditionCode::Al }, None)
}

/// The mnemonic of Halt stands at `pos`.
pub open spec fn halt_mnemonic_at(s: Seq<char>, pos: int) -> bool {
    word_at(s, pos, seq!['a', 'n', 'd']) && word_at(s, pos + 3, seq!['e', 'q'])
}

/// Halt: `andeq`, spaces, and `r0` three times with commas between.
pub open spec fn halt_spec(s: Seq<char>, pos: int) -> Parsed<Assembled> {
    if !halt_mnemonic_at(s, pos) {
        Err(Error::BadSyntax)
    } else {
        match run1_spec(s, pos + 5, CharClass::Space) {
            Err(e) => Err(e),
            Ok((_, first)) => if !word_at(s, first, seq!['r', '0']) {
                Err(Error::BadSyntax)
            } else {
                match comma_space_spec(s, first + 2) {
                    Err(e) => Err(e),
                    Ok((_, second)) => if !word_at(s, second, seq!['r', '0']) {
                        Err(Error::BadSyntax)
                    } else {
                        match comma_space_spec(s, second + 2) {
                            Err(e) => Err(e),
                            Ok((_, third)) => if !word_at(s, third, seq!['r', '0']) {
                                Err(Error::BadSyntax)
                            } else {
                                Ok(
                                    (
                                        (
                                            ConditionalInstruction {
                                                instruction: Instruction::Halt,
                                                cond: ConditionCode::Eq,
                                            },
                                            None,
                                        ),
                                        third + 2,
                                    ),
                                )
                            },
                        }
                    },
                }
            },
        }
    }
}

/// `lsl Rn, #amount` stands for `mov Rn, Rn, lsl #amount`. An amount over 31
/// is out of range; the sign of the expression is not looked at.
pub open spec fn lsl_spec(s: Seq<char>, pos: int) -> Parsed<Assembled> {
    if !word_at(s, pos, seq!['l', 's', 'l']) {
        Err(Error::BadSyntax)
    } else {
        match run1_spec(s, pos + 3, CharClass::Space) {
            Err(e) => Err(e),
            Ok((_, start)) => match reg_spec(s, start) {
                Err(e) => Err(e),
                Ok((rn, named)) => match comma_space_spec(s, named) {
                    Err(e) => Err(e),
                    Ok((_, after)) => match expression_spec(s, after) {
                        Err(e) => Err(e),
                        Ok(((amount, _), end)) => if amount <= 31 {
                            Ok(
                                (
                                    plain(
                                        Instruction::Processing(
                                            InstructionProcessing {
                                                opcode: ProcessingOpcode::Mov,
                                                set_cond: false,
                                                rn: 0,
                                                rd: rn,
                                                operand2: Operand2::ShiftedReg(
                                                    rn,
                                                    Shift::ConstantShift(
                                                        ShiftType::Lsl,
                                                        amount as u8,
                                                    ),
                                                ),
                                            },
                                        ),
                                    ),
                                    end,
                                ),
                            )
                        } else {
                            Err(Error::OperandOutOfRange)
                        },
                    },
                },
            },
        }
    }
}

/// The operands have the form with two registers: a register, a comma, and
/// then something other than the name of a shift.
pub open spec fn two_register_form(s: Seq<char>, pos: int) -> bool {
    &&& reg_spec(s, pos) matches Ok((_, named))
    &&& comma_space_spec(s, named) matches Ok((_, after))
    &&& shifttype_spec(s, after) is Err
}

/// The data-processing instruction made of an opcode, the registers read as
/// first and second, and the operand. Mov writes the second register and
/// never sets flags; the others write the first and read the second.
pub open spec fn processing_of(
    opcode: ProcessingOpcode,
    first: u8,
    second: u8,
    operand2: Operand2,
    set_cond: bool,
) -> Assembled {
    if opcode is Mov {
        plain(
            Instruction::Processing(
                InstructionProcessing { opcode, set_cond: false, rn: first, rd: second, operand2 },
            ),
        )
    } else {
        plain(
            Instruction::Processing(
                InstructionProcessing { opcode, set_cond, rn: second, rd: first, operand2 },
            ),
        )
    }
}

/// The operands of a data-processing instruction, from the first register on.
///
/// In the form with two registers, `Rd,Rn,<operand2>`, flags are not set. In
/// the form with one, `R,<operand2>`, the register counts as the second, the
/// first is 0, and flags are set: so `mov` writes `R` with Rn 0, and a
/// comparison reads `R` with Rd 0.
pub open spec fn processing_operands_spec(s: Seq<char>, pos: int, opcode: ProcessingOpcode)
    -> Parsed<Assembled> {
    match reg_spec(s, pos) {
        Err(e) => Err(e),
        Ok((first, named)) => match comma_space_spec(s, named) {
            Err(e) => Err(e),
            Ok((_, after)) => if two_register_form(s, after) {
                let second = reg_spec(s, after)->Ok_0;
                let rest = comma_space_spec(s, second.1)->Ok_0.1;
                match operand2_spec(s, rest) {
                    Err(e) => Err(e),
                    Ok(((op2, _), end)) => Ok(
                        (processing_of(opcode, first, second.0, op2, false), end),
                    ),
                }
            } else {
                match operand2_spec(s, after) {
                    Err(e) => Err(e),
                    Ok(((op2, _), end)) => Ok((processing_of(opcode, 0, first, op2, true), end)),
                }
            },
        },
    }
}

/// A data-processing instruction: a mnemonic, spaces, and the operands. The
/// sign of an immediate operand is not looked at.
pub open spec fn processing_spec(s: Seq<char>, pos: int) -> Parsed<Assembled> {
    match processing_opcode_spec(s, pos) {
        Err(e) => Err(e),
        Ok((opcode, named)) => match run1_spec(s, named, CharClass::Space) {
            Err(e) => Err(e),
            Ok((_, start)) => processing_operands_spec(s, start, opcode),
        },
    }
}

/// A multiply instruction: `mul Rd,Rm,Rs`, or `mla Rd,Rm,Rs,Rn` which
/// accumulates.
pub open spec fn multiply_spec(s: Seq<char>, pos: int) -> Parsed<Assembled> {
    let accumulate = word_at(s, pos, seq!['m', 'l', 'a']);
    if !accumulate && !word_at(s, pos, seq!['m', 'u', 'l']) {
        Err(Error::BadSyntax)
    } else {
        match run1_spec(s, pos + 3, CharClass::Space) {
            Err(e) => Err(e),
            Ok((_, at_rd)) => match reg_spec(s, at_rd) {
                Err(e) => Err(e),
                Ok((rd, after_rd)) => match comma_space_spec(s, after_rd) {
                    Err(e) => Err(e),
                    Ok((_, at_rm)) => match reg_spec(s, at_rm) {
                        Err(e) => Err(e),
                        Ok((rm, after_rm)) => match comma_space_spec(s, after_rm) {
                            Err(e) => Err(e),
                            Ok((_, at_rs)) => match reg_spec(s, at_rs) {
                                Err(e) => Err(e),
                                Ok((rs, after_rs)) => if !accumulate {
                                    Ok(
                                        (
                                            plain(
                                                Instruction::Multiply(
                                                    InstructionMultiply {
                                                        accumulate,
                                                        set_cond: false,
                                                        rd,
                                                        rn: 0,
                                                        rs,
                                                        rm,
                                                    },
                                                ),
                                            ),
                                            after_rs,
                                        ),
                                    )
                                } else {
                                    match comma_space_spec(s, after_rs) {
                                        Err(e) => Err(e),
                                        Ok((_, at_rn)) => match reg_spec(s, at_rn) {
                                            Err(e) => Err(e),
                                            Ok((rn, after_rn)) => Ok(
                                                (
                                                    plain(
                                                        Instruction::Multiply(
                                                            InstructionMultiply {
                                                                accumulate,
                                                                set_cond: false,
                                                                rd,
                                                                rn,
                                                                rs,
                                                                rm,
                                                            },
                                                        ),
                                                    ),
                                                    after_rn,
                                                ),
                                            ),
                                        },
                                    }
                                },
                            },
                        },
                    },
                },
            },
        }
    }
}

/// What `ldr Rd,=value` becomes.
///
/// A value of at most eight bits is moved: `mov Rd,#value`, and nothing is
/// added to the pool. A larger one is added to the pool at
/// `next_free_address` and loaded from there, relative to the program
/// counter, which is eight past `current_address`: the offset is the
/// distance as an immediate, up where the pool lies ahead and down where
/// not. A distance that no immediate stands for is out of range.
pub open spec fn load_literal_spec(
    rd: u8,
    value: u32,
    current_address: int,
    next_free_address: int,
) -> Result<Assembled, Error> {
    if value <= 0xff {
        Ok(
            plain(
                Instruction::Processing(
                    InstructionProcessing {
                        opcode: ProcessingOpcode::Mov,
                        set_cond: false,
                        rn: 0,
                        rd,
                        operand2: Operand2::ConstantShift(value as u8, 0),
                    },
                ),
            ),
        )
    } else {
        let offset = next_free_address - (current_address + PIPELINE_OFFSET);
        let distance = if offset >= 0 {
            offset
        } else {
            -offset
        };
        if distance > u32::MAX {
            Err(Error::OperandOutOfRange)
        } else {
            match expression_to_operand2_spec(distance as u32) {
                Err(e) => Err(e),
                Ok(operand) => Ok(
                    (
                        ConditionalInstruction {
                            instruction: Instruction::Transfer(
                                InstructionTransfer {
                                    is_preindexed: true,
                                    up_bit: offset >= 0,
                                    load: true,
                                    rn: PC as u8,
                                    rd,
                                    offset: operand,
                                },
                            ),
                            cond: ConditionCode::Al,
                        },
                        Some(value),
                    ),
                ),
            }
        }
    }
}

/// The transfer made of its parts; it always executes and adds nothing to
/// the pool. A minus sign before the offset clears the up bit.
pub open spec fn transfer_of(
    load: bool,
    rd: u8,
    rn: u8,
    offset: Operand2,
    negative: bool,
    is_preindexed: bool,
) -> Assembled {
    plain(
        Instruction::Transfer(
            InstructionTransfer { is_preindexed, up_bit: !negative, load, rn, rd, offset },
        ),
    )
}

/// The address of an indexed transfer, from the bracket on: `[Rn]`,
/// `[Rn, <operand2>]` which index before the access, or `[Rn], <operand2>`
/// which indexes after it.
pub open spec fn transfer_address_spec(s: Seq<char>, pos: int, load: bool, rd: u8) -> Parsed<
    Assembled,
> {
    if !char_at(s, pos, '[') {
        Err(Error::BadSyntax)
    } else {
        match reg_spec(s, pos + 1) {
            Err(e) => Err(e),
            Ok((rn, named)) => if char_at(s, named, ']') {
                match comma_space_spec(s, named + 1) {
                    Err(_) => Ok(
                        (
                            transfer_of(load, rd, rn, Operand2::ConstantShift(0, 0), false, true),
                            named + 1,
                        ),
                    ),
                    Ok((_, after)) => match operand2_spec(s, after) {
                        Err(e) => Err(e),
                        Ok(((offset, negative), end)) => Ok(
                            (transfer_of(load, rd, rn, offset, negative, false), end),
                        ),
                    },
                }
            } else {
                match comma_space_spec(s, named) {
                    Err(e) => Err(e),
                    Ok((_, after)) => match operand2_spec(s, after) {
                        Err(e) => Err(e),
                        Ok(((offset, negative), end)) => if char_at(s, end, ']') {
                            Ok((transfer_of(load, rd, rn, offset, negative, true), end + 1))
                        } else {
                            Err(Error::BadSyntax)
                        },
                    },
                }
            },
        }
    }
}

/// A transfer: `ldr` or `str`, spaces, Rd, a comma, and then either `=` and a
/// literal, for `ldr` only, or an address in brackets. A negative literal
/// after `=` is out of range.
pub open spec fn transfer_spec(
    s: Seq<char>,
    pos: int,
    current_address: int,
    next_free_address: int,
) -> Parsed<Assembled> {
    let load = word_at(s, pos, seq!['l', 'd', 'r']);
    if !load && !word_at(s, pos, seq!['s', 't', 'r']) {
        Err(Error::BadSyntax)
    } else {
        match run1_spec(s, pos + 3, CharClass::Space) {
            Err(e) => Err(e),
            Ok((_, start)) => match reg_spec(s, start) {
                Err(e) => Err(e),
                Ok((rd, named)) => match comma_space_spec(s, named) {
                    Err(e) => Err(e),
                    Ok((_, after)) => if char_at(s, after, '=') {
                        if !load {
                            Err(Error::BadSyntax)
                        } else {
                            match literal_spec(s, after + 1) {
                                Err(e) => Err(e),
                                Ok(((value, negative), end)) => if negative {
                                    Err(Error::OperandOutOfRange)
                                } else {
                                    match load_literal_spec(
                                        rd,
                                        value,
                                        current_address,
                                        next_free_address,
                                    ) {
                                        Err(e) => Err(e),
                                        Ok(assembled) => Ok((assembled, end)),
                                    }
                                },
                            }
                        }
                    } else {
                        transfer_address_spec(s, after, load, rd)
                    },
                },
            },
        }
    }
}

/// The offset of a branch from the instruction at `current_address` to
/// `target`: the distance from the program counter, eight past the
/// instruction, in words, rounded down, as a signed number of 24 bits.
pub open spec fn branch_offset_spec(target: int, current_address: int) -> i32 {
    signed_24(((target - current_address - PIPELINE_OFFSET) / 4) % 0x100_0000) as i32
}

/// The target of a branch: letters and digits. Digits alone that write a
/// number below 2^31 are an address; anything else is a label, to be found
/// in the table.
pub open spec fn branch_target_spec(s: Seq<char>, pos: int, table: Map<Seq<char>, u32>) -> Parsed<
    u32,
> {
    if !class_at(s, pos, CharClass::Alphanumeric) {
        Err(Error::BadSyntax)
    } else {
        let end = run_end(s, pos, CharClass::Alphanumeric);
        let name = s.subrange(pos, end);
        if run_end(s, pos, CharClass::Digit) == end && number_value(name, 10) <= i32::MAX {
            Ok((number_value(name, 10) as u32, end))
        } else {
            match address_of(table, name) {
                Some(address) => Ok((address, end)),
                None => Err(Error::UnknownLabel),
            }
        }
    }
}

/// A branch: `b`, a condition if there is one, spaces, and the target. A
/// branch without condition always executes.
pub open spec fn branch_spec(
    s: Seq<char>,
    pos: int,
    current_address: int,
    table: Map<Seq<char>, u32>,
) -> Parsed<Assembled> {
    if !char_at(s, pos, 'b') {
        Err(Error::BadSyntax)
    } else {
        let (cond, named) = match condition_code_spec(s, pos + 1) {
            Ok((cond, named)) => (cond, named),
            Err(_) => (ConditionCode::Al, pos + 1),
        };
        match run1_spec(s, named, CharClass::Space) {
            Err(e) => Err(e),
            Ok((_, start)) => match branch_target_spec(s, start, table) {
                Err(e) => Err(e),
                Ok((target, end)) => Ok(
                    (
                        (
                            ConditionalInstruction {
                                instruction: Instruction::Branch(
                                    InstructionBranch {
                                        offset: branch_offset_spec(target as int, current_address),
                                    },
                                ),
                                cond,
                            },
                            None,
                        ),
                        end,
                    ),
                ),
            },
        }
    }
}

/// An instruction: the rule that its mnemonic selects. Anything that starts
/// with no mnemonic is read as a branch.
pub open spec fn instruction_spec(
    s: Seq<char>,
    pos: int,
    current_address: int,
    next_free_address: int,
    table: Map<Seq<char>, u32>,
) -> Parsed<Assembled> {
    if halt_mnemonic_at(s, pos) {
        halt_spec(s, pos)
    } else if word_at(s, pos, seq!['l', 's', 'l']) {
        lsl_spec(s, pos)
    } else if processing_opcode_spec(s, pos) is Ok {
        processing_spec(s, pos)
    } else if word_at(s, pos, seq!['l', 'd', 'r']) || word_at(s, pos, seq!['s', 't', 'r']) {
        transfer_spec(s, pos, current_address, next_free_address)
    } else if word_at(s, pos, seq!['m', 'u', 'l']) || word_at(s, pos, seq!['m', 'l', 'a']) {
        multiply_spec(s, pos)
    } else {
        branch_spec(s, pos, current_address, table)
    }
}

/// A line of source: one instruction, with any spaces before and after it and
/// nothing else.
#[verifier::opaque]
pub open spec fn line_spec(
    s: Seq<char>,
    current_address: int,
    next_free_address: int,
    table: Map<Seq<char>, u32>,
) -> Result<Assembled, Error> {
    match instruction_spec(
        s,
        run_end(s, 0, CharClass::Space),
        current_address,
        next_free_address,
        table,
    ) {
        Err(e) => Err(e),
        Ok((assembled, end)) => if run_end(s, end, CharClass::Space) == s.len() {
            Ok(assembled)
        } else {
            Err(Error::BadSyntax)
        },
    }
}

fn always(instruction: Instruction) -> (assembled: Assembled)
    ensures
        assembled == plain(instruction),
{
    (ConditionalInstruction { instruction, cond: ConditionCode::Al }, None)
}

/// Reads Halt.
pub fn halt(text: &Vec<char>, pos: usize) -> (r: Result<(Assembled, usize), Error>)
    ensures
        agrees(r, halt_spec(text@, pos as int)),
        r matches Ok((_, end)) ==> pos < end <= text@.len(),
{
    if !(is_word3_at(text, pos, 'a', 'n', 'd') && is_word2_at(text, pos + 3, 'e', 'q')) {
        return Err(Error::BadSyntax);
    }
    let first: usize = match run1(text, pos + 5, CharClass::Space) {
        Err(e) => {
            return Err(e);
        },
        Ok((_, first)) => first,
    };
    if !is_word2_at(text, first, 'r', '0') {
        return Err(Error::BadSyntax);
    }
    let second: usize = match comma_space(text, first + 2) {
        Err(e) => {
            return Err(e);
        },
        Ok((_, second)) => second,
    };
    if !is_word2_at(text, second, 'r', '0') {
        return Err(Error::BadSyntax);
    }
    let third: usize = match comma_space(text, second + 2) {
        Err(e) => {
            return Err(e);
        },
        Ok((_, third)) => third,
    };
    if !is_word2_at(text, third, 'r', '0') {
        return Err(Error::BadSyntax);
    }
    let halt = ConditionalInstruction { instruction: Instruction::Halt, cond: ConditionCode::Eq };
    Ok(((halt, None), third + 2))
}

/// Reads the shorthand `lsl Rn, #amount`.
pub fn lsl(text: &Vec<char>, pos: usize) -> (r: Result<(Assembled, usize), Error>)
    ensures
        agrees(r, lsl_spec(text@, pos as int)),
        r matches Ok((_, end)) ==> pos < end <= text@.len(),
{
    if !is_word3_at(text, pos, 'l', 's', 'l') {
        return Err(Error::BadSyntax);
    }
    let start: usize = match run1(text, pos + 3, CharClass::Space) {
        Err(e) => {
            return Err(e);
        },
        Ok((_, start)) => start,
    };
    let (rn, named): (u8, usize) = match reg(text, start) {
        Err(e) => {
            return Err(e);
        },
        Ok(found) => found,
    };
    let after: usize = match comma_space(text, named) {
        Err(e) => {
            return Err(e);
        },
        Ok((_, after)) => after,
    };
    match expression(text, after) {
        Err(e) => Err(e),
        Ok(((amount, _), end)) => {
            if amount <= 31 {
                Ok(
                    (
                        always(
                            Instruction::Processing(
                                InstructionProcessing {
                                    opcode: ProcessingOpcode::Mov,
                                    set_cond: false,
                                    rn: 0,
                                    rd: rn,
                                    operand2: Operand2::ShiftedReg(
                                        rn,
                                        Shift::ConstantShift(ShiftType::Lsl, amount as u8),
                                    ),
                                },
                            ),
                        ),
                        end,
                    ),
                )
            } else {
                Err(Error::OperandOutOfRange)
            }
        },
    }
}

fn make_processing(
    opcode: ProcessingOpcode,
    first: u8,
    second: u8,
    operand2: Operand2,
    set_cond: bool,
) -> (assembled: Assembled)
    ensures
        assembled == processing_of(opcode, first, second, operand2, set_cond),
{
    match opcode {
        ProcessingOpcode::Mov => always(
            Instruction::Processing(
                InstructionProcessing { opcode, set_cond: false, rn: first, rd: second, operand2 },
            ),
        ),
        _ => always(
            Instruction::Processing(
                InstructionProcessing { opcode, set_cond, rn: second, rd: first, operand2 },
            ),
        ),
    }
}

/// Where the operand starts if the operands have the form with two
/// registers, with the second register.
fn second_register(text: &Vec<char>, pos: usize) -> (r: Option<(u8, usize)>)
    ensures
        r is Some <==> two_register_form(text@, pos as int),
        r matches Some((second, rest)) ==> {
            &&& reg_spec(text@, pos as int) matches Ok((n, named))
            &&& n == second
            &&& comma_space_spec(text@, named) == Ok::<((), int), Error>(((), rest as int))
            &&& pos < rest <= text@.len()
        },
{
    match reg(text, pos) {
        Err(_) => None,
        Ok((second, named)) => match comma_space(text, named) {
            Err(_) => None,
            Ok((_, rest)) => {
                if shifttype(text, rest).is_err() {
                    Some((second, rest))
                } else {
                    None
                }
            },
        },
    }
}

/// Reads a data-processing instruction.
pub fn processing(text: &Vec<char>, pos: usize) -> (r: Result<(Assembled, usize), Error>)
    ensures
        agrees(r, processing_spec(text@, pos as int)),
        r matches Ok((_, end)) ==> pos < end <= text@.len(),
{
    let (opcode, named): (ProcessingOpcode, usize) = match processing_opcode(text, pos) {
        Err(e) => {
            return Err(e);
        },
        Ok(found) => found,
    };
    let start: usize = match run1(text, named, CharClass::Space) {
        Err(e) => {
            return Err(e);
        },
        Ok((_, start)) => start,
    };
    let (first, first_end): (u8, usize) = match reg(text, start) {
        Err(e) => {
            return Err(e);
        },
        Ok(found) => found,
    };
    let after: usize = match comma_space(text, first_end) {
        Err(e) => {
            return Err(e);
        },
        Ok((_, after)) => after,
    };
    match second_register(text, after) {
        Some((second, rest)) => match operand2(text, rest) {
            Err(e) => Err(e),
            Ok(((op2, _), end)) => Ok((make_processing(opcode, first, second, op2, false), end)),
        },
        None => match operand2(text, after) {
            Err(e) => Err(e),
            Ok(((op2, _), end)) => Ok((make_processing(opcode, 0, first, op2, true), end)),
        },
    }
}

/// Reads a multiply instruction.
pub fn multiply(text: &Vec<char>, pos: usize) -> (r: Result<(Assembled, usize), Error>)
    ensures
        agrees(r, multiply_spec(text@, pos as int)),
        r matches Ok((_, end)) ==> pos < end <= text@.len(),
{
    let accumulate = is_word3_at(text, pos, 'm', 'l', 'a');
    if !accumulate && !is_word3_at(text, pos, 'm', 'u', 'l') {
        return Err(Error::BadSyntax);
    }
    let at_rd: usize = match run1(text, pos + 3, CharClass::Space) {
        Err(e) => {
            return Err(e);
        },
        Ok((_, at_rd)) => at_rd,
    };
    let (rd, after_rd): (u8, usize) = match reg(text, at_rd) {
        Err(e) => {
            return Err(e);
        },
        Ok(found) => found,
    };
    let at_rm: usize = match comma_space(text, after_rd) {
        Err(e) => {
            return Err(e);
        },
        Ok((_, at_rm)) => at_rm,
    };
    let (rm, after_rm): (u8, usize) = match reg(text, at_rm) {
        Err(e) => {
            return Err(e);
        },
        Ok(found) => found,
    };
    let at_rs: usize = match comma_space(text, after_rm) {
        Err(e) => {
            return Err(e);
        },
        Ok((_, at_rs)) => at_rs,
    };
    let (rs, after_rs): (u8, usize) = match reg(text, at_rs) {
        Err(e) => {
            return Err(e);
        },
        Ok(found) => found,
    };
    if !accumulate {
        return Ok(
            (
                always(
                    Instruction::Multiply(
                        InstructionMultiply { accumulate, set_cond: false, rd, rn: 0, rs, rm },
                    ),
                ),
                after_rs,
            ),
        );
    }
    let at_rn: usize = match comma_space(text, after_rs) {
        Err(e) => {
            return Err(e);
        },
        Ok((_, at_rn)) => at_rn,
    };
    match reg(text, at_rn) {
        Err(e) => Err(e),
        Ok((rn, after_rn)) => Ok(
            (
                always(
                    Instruction::Multiply(
                        InstructionMultiply { accumulate, set_cond: false, rd, rn, rs, rm },
                    ),
                ),
                after_rn,
            ),
        ),
    }
}

/// Turns `ldr Rd,=value` into a move or into a load from the literal pool.
pub fn load_literal(rd: u8, value: u32, current_address: usize, next_free_address: usize) -> (r:
    Result<Assembled, Error>)
    ensures
        r == load_literal_spec(rd, value, current_address as int, next_free_address as int),
{
    if value <= 0xff {
        return Ok(
            always(
                Instruction::Processing(
                    InstructionProcessing {
                        opcode: ProcessingOpcode::Mov,
                        set_cond: false,
                        rn: 0,
                        rd,
                        operand2: Operand2::ConstantShift(value as u8, 0),
                    },
                ),
            ),
        );
    }
    let pool: u128 = next_free_address as u128;
    let counter: u128 = current_address as u128 + PIPELINE_OFFSET as u128;
    let up: bool = pool >= counter;
    let distance: u128 = if up {
        pool - counter
    } else {
        counter - pool
    };
    if distance > 0xffff_ffff {
        return Err(Error::OperandOutOfRange);
    }
    match expression_to_operand2(distance as u32) {
        Err(e) => Err(e),
        Ok(operand) => Ok(
            (
                ConditionalInstruction {
                    instruction: Instruction::Transfer(
                        InstructionTransfer {
                            is_preindexed: true,
                            up_bit: up,
                            load: true,
                            rn: PC as u8,
                            rd,
                            offset: operand,
                        },
                    ),
                    cond: ConditionCode::Al,
                },
                Some(value),
            ),
        ),
    }
}

fn make_transfer(
    load: bool,
    rd: u8,
    rn: u8,
    offset: Operand2,
    negative: bool,
    is_preindexed: bool,
) -> (assembled: Assembled)
    ensures
        assembled == transfer_of(load, rd, rn, offset, negative, is_preindexed),
{
    always(
        Instruction::Transfer(
            InstructionTransfer { is_preindexed, up_bit: !negative, load, rn, rd, offset },
        ),
    )
}

/// Reads the address of an indexed transfer, from the bracket on.
pub fn transfer_address(text: &Vec<char>, pos: usize, load: bool, rd: u8) -> (r: Result<
    (Assembled, usize),
    Error,
>)
    ensures
        agrees(r, transfer_address_spec(text@, pos as int, load, rd)),
        r matches Ok((_, end)) ==> pos < end <= text@.len(),
{
    if !is_char_at(text, pos, '[') {
        return Err(Error::BadSyntax);
    }
    let (rn, named): (u8, usize) = match reg(text, pos + 1) {
        Err(e) => {
            return Err(e);
        },
        Ok(found) => found,
    };
    if is_char_at(text, named, ']') {
        match comma_space(text, named + 1) {
            Err(_) => {
                let no_offset = Operand2::ConstantShift(0, 0);
                Ok((make_transfer(load, rd, rn, no_offset, false, true), named + 1))
            },
            Ok((_, after)) => match operand2(text, after) {
                Err(e) => Err(e),
                Ok(((offset, negative), end)) => Ok(
                    (make_transfer(load, rd, rn, offset, negative, false), end),
                ),
            },
        }
    } else {
        let after: usize = match comma_space(text, named) {
            Err(e) => {
                return Err(e);
            },
            Ok((_, after)) => after,
        };
        match operand2(text, after) {
            Err(e) => Err(e),
            Ok(((offset, negative), end)) => {
                if is_char_at(text, end, ']') {
                    Ok((make_transfer(load, rd, rn, offset, negative, true), end + 1))
                } else {
                    Err(Error::BadSyntax)
                }
            },
        }
    }
}

/// Reads a transfer instruction.
pub fn transfer(text: &Vec<char>, pos: usize, current_address: usize, next_free_address: usize)
    -> (r: Result<(Assembled, usize), Error>)
    ensures
        agrees(
            r,
            transfer_spec(text@, pos as int, current_address as int, next_free_address as int),
        ),
        r matches Ok((_, end)) ==> pos < end <= text@.len(),
{
    let load = is_word3_at(text, pos, 'l', 'd', 'r');
    if !load && !is_word3_at(text, pos, 's', 't', 'r') {
        return Err(Error::BadSyntax);
    }
    let start: usize = match run1(text, pos + 3, CharClass::Space) {
        Err(e) => {
            return Err(e);
        },
        Ok((_, start)) => start,
    };
    let (rd, named): (u8, usize) = match reg(text, start) {
        Err(e) => {
            return Err(e);
        },
        Ok(found) => found,
    };
    let after: usize = match comma_space(text, named) {
        Err(e) => {
            return Err(e);
        },
        Ok((_, after)) => after,
    };
    if is_char_at(text, after, '=') {
        if !load {
            return Err(Error::BadSyntax);
        }
        match literal(text, after + 1) {
            Err(e) => Err(e),
            Ok(((value, negative), end)) => {
                if negative {
                    Err(Error::OperandOutOfRange)
                } else {
                    match load_literal(rd, value, current_address, next_free_address) {
                        Err(e) => Err(e),
                        Ok(assembled) => Ok((assembled, end)),
                    }
                }
            },
        }
    } else {
        transfer_address(text, after, load, rd)
    }
}

/// The offset of a branch from the instruction at `current_address` to `target`.
pub fn branch_offset(target: u32, current_address: usize) -> (offset: i32)
    ensures
        offset == branch_offset_spec(target as int, current_address as int),
        -0x80_0000 <= offset < 0x80_0000,
{
    // Lifting the distance by a multiple of 2^26 keeps it above zero and
    // leaves its words unchanged modulo 2^24.
    let lifted: u128 = target as u128 + 0x40_0000_0000_0000_0000u128 - (current_address as u128
        + PIPELINE_OFFSET as u128);
    let words: u128 = (lifted / 4) % 0x100_0000;
    assert(words == ((target - current_address - 8) / 4) % 0x100_0000) by {
        let d = target - current_address - 8;
        assert(lifted == d + 0x40_0000_0000_0000_0000);
        assert((d + 0x40_0000_0000_0000_0000) / 4 == d / 4 + 0x10_0000_0000_0000_0000);
        assert((d / 4 + 0x10_0000_0000_0000_0000) % 0x100_0000 == (d / 4) % 0x100_0000) by {
            vstd::arithmetic::div_mod::lemma_mod_multiples_vanish(
                0x1000_0000_0000,
                d / 4,
                0x100_0000,
            );
        }
    }
    if words < 0x80_0000 {
        words as i32
    } else {
        (words as i64 - 0x100_0000) as i32
    }
}

/// Reads the target of a branch.
pub fn branch_target(text: &Vec<char>, pos: usize, symbol_table: &SymbolTable) -> (r: Result<
    (u32, usize),
    Error,
>)
    ensures
        agrees(r, branch_target_spec(text@, pos as int, symbol_table@)),
        r matches Ok((_, end)) ==> pos < end <= text@.len(),
{
    if !is_class_at(text, pos, CharClass::Alphanumeric) {
        return Err(Error::BadSyntax);
    }
    let end: usize = skip_run(text, pos, CharClass::Alphanumeric);
    proof {
        lemma_run_end(text@, pos + 1, CharClass::Alphanumeric);
    }
    if skip_run(text, pos, CharClass::Digit) == end {
        match number(text, pos, 10) {
            Ok((value, _)) => {
                if value <= 0x7fff_ffff {
                    return Ok((value, end));
                }
            },
            Err(_) => {},
        }
    }
    match symbol_table.get_range(text, pos, end) {
        Some(address) => Ok((address, end)),
        None => Err(Error::UnknownLabel),
    }
}

/// Reads a branch.
pub fn branch(text: &Vec<char>, pos: usize, current_address: usize, symbol_table: &SymbolTable)
    -> (r: Result<(Assembled, usize), Error>)
    ensures
        agrees(r, branch_spec(text@, pos as int, current_address as int, symbol_table@)),
        r matches Ok((_, end)) ==> pos < end <= text@.len(),
{
    if !is_char_at(text, pos, 'b') {
        return Err(Error::BadSyntax);
    }
    let (cond, named): (ConditionCode, usize) = match condition_code(text, pos + 1) {
        Ok(found) => found,
        Err(_) => (ConditionCode::Al, pos + 1),
    };
    let start: usize = match run1(text, named, CharClass::Space) {
        Err(e) => {
            return Err(e);
        },
        Ok((_, start)) => start,
    };
    match branch_target(text, start, symbol_table) {
        Err(e) => Err(e),
        Ok((target, end)) => Ok(
            (
                (
                    ConditionalInstruction {
                        instruction: Instruction::Branch(
                            InstructionBranch { offset: branch_offset(target, current_address) },
                        ),
                        cond,
                    },
                    None,
                ),
                end,
            ),
        ),
    }
}

/// Reads one instruction.
pub fn instruction(
    text: &Vec<char>,
    pos: usize,
    current_address: usize,
    next_free_address: usize,
    symbol_table: &SymbolTable,
) -> (r: Result<(Assembled, usize), Error>)
    ensures
        agrees(
            r,
            instruction_spec(
                text@,
                pos as int,
                current_address as int,
                next_free_address as int,
                symbol_table@,
            ),
        ),
        r matches Ok((_, end)) ==> pos < end <= text@.len(),
{
    if is_word3_at(text, pos, 'a', 'n', 'd') && is_word2_at(text, pos + 3, 'e', 'q') {
        halt(text, pos)
    } else if is_word3_at(text, pos, 'l', 's', 'l') {
        lsl(text, pos)
    } else if processing_opcode(text, pos).is_ok() {
        processing(text, pos)
    } else if is_word3_at(text, pos, 'l', 'd', 'r') || is_word3_at(text, pos, 's', 't', 'r') {
        transfer(text, pos, current_address, next_free_address)
    } else if is_word3_at(text, pos, 'm', 'u', 'l') || is_word3_at(text, pos, 'm', 'l', 'a') {
        multiply(text, pos)
    } else {
        branch(text, pos, current_address, symbol_table)
    }
}

/// Reads a line of source as one instruction.
pub fn line(
    text: &Vec<char>,
    current_address: usize,
    next_free_address: usize,
    symbol_table: &SymbolTable,
) -> (r: Result<Assembled, Error>)
    ensures
        r == line_spec(text@, current_address as int, next_free_address as int, symbol_table@),
{
    proof {
        reveal(line_spec);
    }
    let start: usize = skip_run(text, 0, CharClass::Space);
    match instruction(text, start, current_address, next_free_address, symbol_table) {
        Err(e) => Err(e),
        Ok((assembled, end)) => {
            if skip_run(text, end, CharClass::Space) == text.len() {
                Ok(assembled)
            } else {
                Err(Error::BadSyntax)
            }
        },
    }
}

} // verus!
