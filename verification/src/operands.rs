//! The rules of the grammar below the instruction: registers, literals,
//! shifts and second operands. Each reads from a position of a text on and
//! says where it stopped.

use vstd::prelude::*;
use crate::immediate::{expression_to_operand2, expression_to_operand2_spec};
use crate::text::{
    agrees, char_at, class_at, is_char_at, is_class_at, is_word2_at, is_word3_at, lemma_run_end,
    number, number_spec, run_end, skip_run, word_at, CharClass, Parsed,
};
use crate::types::{ConditionCode, Error, Operand2, ProcessingOpcode, Shift, ShiftType};

verus! {

/// A comma, then any spaces.
pub open spec fn comma_space_spec(s: Seq<char>, pos: int) -> Parsed<()> {
    if char_at(s, pos, ',') {
        Ok(((), run_end(s, pos + 1, CharClass::Space)))
    } else {
        Err(Error::BadSyntax)
    }
}

/// The registers that the source may name: `r0` to `r12`, `r15` and `r16`.
pub open spec fn permitted_register(n: u32) -> bool {
    n <= 12 || n == 15 || n == 16
}

/// A register: `r` and a decimal number that names a permitted register.
/// Anything else after `r` and a digit is a bad register.
pub open spec fn reg_spec(s: Seq<char>, pos: int) -> Parsed<u8> {
    if !char_at(s, pos, 'r') || !class_at(s, pos + 1, CharClass::Digit) {
        Err(Error::BadSyntax)
    } else {
        match number_spec(s, pos + 1, 10) {
            Ok((n, end)) => if permitted_register(n) {
                Ok((n as u8, end))
            } else {
                Err(Error::BadRegister)
            },
            Err(_) => Err(Error::BadRegister),
        }
    }
}

/// Where the digits of a literal start: after the minus sign, if there is one.
pub open spec fn literal_start(s: Seq<char>, pos: int) -> int {
    if char_at(s, pos, '-') {
        pos + 1
    } else {
        pos
    }
}

/// The digits of a literal are hexadecimal: `0x` and at least one digit.
pub open spec fn literal_is_hex(s: Seq<char>, pos: int) -> bool {
    word_at(s, literal_start(s, pos), seq!['0', 'x']) && class_at(
        s,
        literal_start(s, pos) + 2,
        CharClass::HexDigit,
    )
}

/// A literal: an optional minus sign, then a hexadecimal number after `0x` or
/// a decimal number. The value is the magnitude; the flag says that there was
/// a minus sign.
pub open spec fn literal_spec(s: Seq<char>, pos: int) -> Parsed<(u32, bool)> {
    let negative = char_at(s, pos, '-');
    let digits = if literal_is_hex(s, pos) {
        number_spec(s, literal_start(s, pos) + 2, 16)
    } else {
        number_spec(s, literal_start(s, pos), 10)
    };
    match digits {
        Ok((value, end)) => Ok(((value, negative), end)),
        Err(e) => Err(e),
    }
}

/// An expression: `#` and a literal.
pub open spec fn expression_spec(s: Seq<char>, pos: int) -> Parsed<(u32, bool)> {
    if char_at(s, pos, '#') {
        literal_spec(s, pos + 1)
    } else {
        Err(Error::BadSyntax)
    }
}

/// An immediate operand: an expression whose magnitude is representable. The
/// flag says that the expression had a minus sign.
pub open spec fn operand2_constant_spec(s: Seq<char>, pos: int) -> Parsed<(Operand2, bool)> {
    match expression_spec(s, pos) {
        Ok(((value, negative), end)) => match expression_to_operand2_spec(value) {
            Ok(op2) => Ok(((op2, negative), end)),
            Err(e) => Err(e),
        },
        Err(e) => Err(e),
    }
}

/// The name of a shift: `lsl`, `lsr`, `asr` or `ror`.
pub open spec fn shifttype_spec(s: Seq<char>, pos: int) -> Parsed<ShiftType> {
    if word_at(s, pos, seq!['l', 's', 'l']) {
        Ok((ShiftType::Lsl, pos + 3))
    } else if word_at(s, pos, seq!['l', 's', 'r']) {
        Ok((ShiftType::Lsr, pos + 3))
    } else if word_at(s, pos, seq!['a', 's', 'r']) {
        Ok((ShiftType::Asr, pos + 3))
    } else if word_at(s, pos, seq!['r', 'o', 'r']) {
        Ok((ShiftType::Ror, pos + 3))
    } else {
        Err(Error::BadSyntax)
    }
}

/// A shift: its name, any spaces, then an expression of at most 31 or a
/// register. The sign of the expression is not looked at; a larger amount is
/// out of range.
pub open spec fn shift_clause_spec(s: Seq<char>, pos: int) -> Parsed<Shift> {
    match shifttype_spec(s, pos) {
        Err(e) => Err(e),
        Ok((shift_type, named)) => {
            let start = run_end(s, named, CharClass::Space);
            if char_at(s, start, '#') {
                match expression_spec(s, start) {
                    Err(e) => Err(e),
                    Ok(((amount, _), end)) => if amount <= 31 {
                        Ok((Shift::ConstantShift(shift_type, amount as u8), end))
                    } else {
                        Err(Error::OperandOutOfRange)
                    },
                }
            } else {
                match reg_spec(s, start) {
                    Err(e) => Err(e),
                    Ok((shift_reg, end)) => Ok((Shift::RegisterShift(shift_type, shift_reg), end)),
                }
            }
        },
    }
}

/// A comma, any spaces and the name of a shift follow.
pub open spec fn shift_follows(s: Seq<char>, pos: int) -> bool {
    comma_space_spec(s, pos) matches Ok((_, after)) && shifttype_spec(s, after) is Ok
}

/// A register operand: a register and, where a comma and the name of a shift
/// follow, that shift. Without one the register is shifted left by 0.
pub open spec fn operand2_shifted_spec(s: Seq<char>, pos: int) -> Parsed<(Operand2, bool)> {
    match reg_spec(s, pos) {
        Err(e) => Err(e),
        Ok((reg, end)) => if shift_follows(s, end) {
            match shift_clause_spec(s, comma_space_spec(s, end)->Ok_0.1) {
                Err(e) => Err(e),
                Ok((shift, shifted)) => Ok(((Operand2::ShiftedReg(reg, shift), false), shifted)),
            }
        } else {
            Ok(((Operand2::ShiftedReg(reg, Shift::ConstantShift(ShiftType::Lsl, 0)), false), end))
        },
    }
}

/// A second operand: immediate where it starts with `#`, a register where not.
pub open spec fn operand2_spec(s: Seq<char>, pos: int) -> Parsed<(Operand2, bool)> {
    if char_at(s, pos, '#') {
        operand2_constant_spec(s, pos)
    } else {
        operand2_shifted_spec(s, pos)
    }
}

/// The mnemonic of a data-processing instruction.
pub open spec fn processing_opcode_spec(s: Seq<char>, pos: int) -> Parsed<ProcessingOpcode> {
    if word_at(s, pos, seq!['a', 'n', 'd']) {
        Ok((ProcessingOpcode::And, pos + 3))
    } else if word_at(s, pos, seq!['e', 'o', 'r']) {
        Ok((ProcessingOpcode::Eor, pos + 3))
    } else if word_at(s, pos, seq!['s', 'u', 'b']) {
        Ok((ProcessingOpcode::Sub, pos + 3))
    } else if word_at(s, pos, seq!['r', 's', 'b']) {
        Ok((ProcessingOpcode::Rsb, pos + 3))
    } else if word_at(s, pos, seq!['a', 'd', 'd']) {
        Ok((ProcessingOpcode::Add, pos + 3))
    } else if word_at(s, pos, seq!['t', 's', 't']) {
        Ok((ProcessingOpcode::Tst, pos + 3))
    } else if word_at(s, pos, seq!['t', 'e', 'q']) {
        Ok((ProcessingOpcode::Teq, pos + 3))
    } else if word_at(s, pos, seq!['c', 'm', 'p']) {
        Ok((ProcessingOpcode::Cmp, pos + 3))
    } else if word_at(s, pos, seq!['o', 'r', 'r']) {
        Ok((ProcessingOpcode::Orr, pos + 3))
    } else if word_at(s, pos, seq!['m', 'o', 'v']) {
        Ok((ProcessingOpcode::Mov, pos + 3))
    } else {
        Err(Error::BadSyntax)
    }
}

/// The suffix of a conditional branch: `eq`, `ne`, `ge`, `lt`, `gt` or `le`.
pub open spec fn condition_code_spec(s: Seq<char>, pos: int) -> Parsed<ConditionCode> {
    if word_at(s, pos, seq!['e', 'q']) {
        Ok((ConditionCode::Eq, pos + 2))
    } else if word_at(s, pos, seq!['n', 'e']) {
        Ok((ConditionCode::Ne, pos + 2))
    } else if word_at(s, pos, seq!['g', 'e']) {
        Ok((ConditionCode::Ge, pos + 2))
    } else if word_at(s, pos, seq!['l', 't']) {
        Ok((ConditionCode::Lt, pos + 2))
    } else if word_at(s, pos, seq!['g', 't']) {
        Ok((ConditionCode::Gt, pos + 2))
    } else if word_at(s, pos, seq!['l', 'e']) {
        Ok((ConditionCode::Le, pos + 2))
    } else {
        Err(Error::BadSyntax)
    }
}

/// Reads a comma and the spaces after it.
pub fn comma_space(text: &Vec<char>, pos: usize) -> (r: Result<((), usize), Error>)
    ensures
        agrees(r, comma_space_spec(text@, pos as int)),
        r matches Ok((_, end)) ==> pos < end <= text@.len(),
{
    if is_char_at(text, pos, ',') {
        Ok(((), skip_run(text, pos + 1, CharClass::Space)))
    } else {
        Err(Error::BadSyntax)
    }
}

/// Reads a register.
pub fn reg(text: &Vec<char>, pos: usize) -> (r: Result<(u8, usize), Error>)
    ensures
        agrees(r, reg_spec(text@, pos as int)),
        r matches Ok((n, end)) ==> pos < end <= text@.len() && permitted_register(n as u32),
{
    if !is_char_at(text, pos, 'r') || !is_class_at(text, pos + 1, CharClass::Digit) {
        return Err(Error::BadSyntax);
    }
    match number(text, pos + 1, 10) {
        Ok((n, end)) => {
            if n <= 12 || n == 15 || n == 16 {
                Ok((n as u8, end))
            } else {
                Err(Error::BadRegister)
            }
        },
        Err(_) => Err(Error::BadRegister),
    }
}

/// Reads a literal.
pub fn literal(text: &Vec<char>, pos: usize) -> (r: Result<((u32, bool), usize), Error>)
    requires
        pos <= text@.len(),
    ensures
        agrees(r, literal_spec(text@, pos as int)),
        r matches Ok((_, end)) ==> pos < end <= text@.len(),
{
    let negative = is_char_at(text, pos, '-');
    let start: usize = if negative {
        pos + 1
    } else {
        pos
    };
    let digits = if is_word2_at(text, start, '0', 'x') && is_class_at(
        text,
        start + 2,
        CharClass::HexDigit,
    ) {
        number(text, start + 2, 16)
    } else {
        number(text, start, 10)
    };
    match digits {
        Ok((value, end)) => Ok(((value, negative), end)),
        Err(e) => Err(e),
    }
}

/// Reads an expression.
pub fn expression(text: &Vec<char>, pos: usize) -> (r: Result<((u32, bool), usize), Error>)
    ensures
        agrees(r, expression_spec(text@, pos as int)),
        r matches Ok((_, end)) ==> pos < end <= text@.len(),
{
    if is_char_at(text, pos, '#') {
        literal(text, pos + 1)
    } else {
        Err(Error::BadSyntax)
    }
}

/// Reads an immediate operand.
pub fn operand2_constant(text: &Vec<char>, pos: usize) -> (r: Result<
    ((Operand2, bool), usize),
    Error,
>)
    ensures
        agrees(r, operand2_constant_spec(text@, pos as int)),
        r matches Ok((_, end)) ==> pos < end <= text@.len(),
{
    match expression(text, pos) {
        Ok(((value, negative), end)) => match expression_to_operand2(value) {
            Ok(op2) => Ok(((op2, negative), end)),
            Err(e) => Err(e),
        },
        Err(e) => Err(e),
    }
}

/// Reads the name of a shift.
pub fn shifttype(text: &Vec<char>, pos: usize) -> (r: Result<(ShiftType, usize), Error>)
    ensures
        agrees(r, shifttype_spec(text@, pos as int)),
        r matches Ok((_, end)) ==> end == pos + 3 && end <= text@.len(),
{
    if is_word3_at(text, pos, 'l', 's', 'l') {
        Ok((ShiftType::Lsl, pos + 3))
    } else if is_word3_at(text, pos, 'l', 's', 'r') {
        Ok((ShiftType::Lsr, pos + 3))
    } else if is_word3_at(text, pos, 'a', 's', 'r') {
        Ok((ShiftType::Asr, pos + 3))
    } else if is_word3_at(text, pos, 'r', 'o', 'r') {
        Ok((ShiftType::Ror, pos + 3))
    } else {
        Err(Error::BadSyntax)
    }
}

/// Reads a shift.
pub fn shift_clause(text: &Vec<char>, pos: usize) -> (r: Result<(Shift, usize), Error>)
    ensures
        agrees(r, shift_clause_spec(text@, pos as int)),
        r matches Ok((_, end)) ==> pos < end <= text@.len(),
{
    match shifttype(text, pos) {
        Err(e) => Err(e),
        Ok((shift_type, named)) => {
            let start: usize = skip_run(text, named, CharClass::Space);
            if is_char_at(text, start, '#') {
                match expression(text, start) {
                    Err(e) => Err(e),
                    Ok(((amount, _), end)) => {
                        if amount <= 31 {
                            Ok((Shift::ConstantShift(shift_type, amount as u8), end))
                        } else {
                            Err(Error::OperandOutOfRange)
                        }
                    },
                }
            } else {
                match reg(text, start) {
                    Err(e) => Err(e),
                    Ok((shift_reg, end)) => Ok((Shift::RegisterShift(shift_type, shift_reg), end)),
                }
            }
        },
    }
}

/// Reads a register operand.
pub fn operand2_shifted(text: &Vec<char>, pos: usize) -> (r: Result<
    ((Operand2, bool), usize),
    Error,
>)
    ensures
        agrees(r, operand2_shifted_spec(text@, pos as int)),
        r matches Ok((_, end)) ==> pos < end <= text@.len(),
{
    match reg(text, pos) {
        Err(e) => Err(e),
        Ok((reg, end)) => {
            let shift_start: Option<usize> = match comma_space(text, end) {
                Ok((_, after)) => {
                    if shifttype(text, after).is_ok() {
                        Some(after)
                    } else {
                        None
                    }
                },
                Err(_) => None,
            };
            match shift_start {
                Some(after) => match shift_clause(text, after) {
                    Err(e) => Err(e),
                    Ok((shift, shifted)) => Ok(
                        ((Operand2::ShiftedReg(reg, shift), false), shifted),
                    ),
                },
                None => {
                    let unshifted = Shift::ConstantShift(ShiftType::Lsl, 0);
                    Ok(((Operand2::ShiftedReg(reg, unshifted), false), end))
                },
            }
        },
    }
}

/// Reads a second operand.
pub fn operand2(text: &Vec<char>, pos: usize) -> (r: Result<((Operand2, bool), usize), Error>)
    ensures
        agrees(r, operand2_spec(text@, pos as int)),
        r matches Ok((_, end)) ==> pos < end <= text@.len(),
{
    if is_char_at(text, pos, '#') {
        operand2_constant(text, pos)
    } else {
        operand2_shifted(text, pos)
    }
}

/// Reads the mnemonic of a data-processing instruction.
pub fn processing_opcode(text: &Vec<char>, pos: usize) -> (r: Result<
    (ProcessingOpcode, usize),
    Error,
>)
    ensures
        agrees(r, processing_opcode_spec(text@, pos as int)),
        r matches Ok((_, end)) ==> end == pos + 3 && end <= text@.len(),
{
    if is_word3_at(text, pos, 'a', 'n', 'd') {
        Ok((ProcessingOpcode::And, pos + 3))
    } else if is_word3_at(text, pos, 'e', 'o', 'r') {
        Ok((ProcessingOpcode::Eor, pos + 3))
    } else if is_word3_at(text, pos, 's', 'u', 'b') {
        Ok((ProcessingOpcode::Sub, pos + 3))
    } else if is_word3_at(text, pos, 'r', 's', 'b') {
        Ok((ProcessingOpcode::Rsb, pos + 3))
    } else if is_word3_at(text, pos, 'a', 'd', 'd') {
        Ok((ProcessingOpcode::Add, pos + 3))
    } else if is_word3_at(text, pos, 't', 's', 't') {
        Ok((ProcessingOpcode::Tst, pos + 3))
    } else if is_word3_at(text, pos, 't', 'e', 'q') {
        Ok((ProcessingOpcode::Teq, pos + 3))
    } else if is_word3_at(text, pos, 'c', 'm', 'p') {
        Ok((ProcessingOpcode::Cmp, pos + 3))
    } else if is_word3_at(text, pos, 'o', 'r', 'r') {
        Ok((ProcessingOpcode::Orr, pos + 3))
    } else if is_word3_at(text, pos, 'm', 'o', 'v') {
        Ok((ProcessingOpcode::Mov, pos + 3))
    } else {
        Err(Error::BadSyntax)
    }
}

/// Reads the suffix of a conditional branch.
pub fn condition_code(text: &Vec<char>, pos: usize) -> (r: Result<(ConditionCode, usize), Error>)
    ensures
        agrees(r, condition_code_spec(text@, pos as int)),
        r matches Ok((_, end)) ==> end == pos + 2 && end <= text@.len(),
{
    if is_word2_at(text, pos, 'e', 'q') {
        Ok((ConditionCode::Eq, pos + 2))
    } else if is_word2_at(text, pos, 'n', 'e') {
        Ok((ConditionCode::Ne, pos + 2))
    } else if is_word2_at(text, pos, 'g', 'e') {
        Ok((ConditionCode::Ge, pos + 2))
    } else if is_word2_at(text, pos, 'l', 't') {
        Ok((ConditionCode::Lt, pos + 2))
    } else if is_word2_at(text, pos, 'g', 't') {
        Ok((ConditionCode::Gt, pos + 2))
    } else if is_word2_at(text, pos, 'l', 'e') {
        Ok((ConditionCode::Le, pos + 2))
    } else {
        Err(Error::BadSyntax)
    }
}

} // verus!
