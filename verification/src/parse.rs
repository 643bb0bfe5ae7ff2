//! The grammar on strings: each rule reads the start of a string and gives
//! what it read with the rest of the string.

use vstd::prelude::*;
use vstd::string::StrSliceExecFns;
use crate::instructions::{
    branch, branch_spec, halt, halt_spec, line, line_spec, lsl, lsl_spec, multiply,
    multiply_spec, processing, processing_spec, transfer, transfer_spec, Assembled,
};
use crate::operands::{
    condition_code, condition_code_spec, expression, expression_spec, operand2,
    operand2_constant, operand2_constant_spec, operand2_shifted, operand2_shifted_spec,
    operand2_spec, processing_opcode, processing_opcode_spec, reg, reg_spec, shift_clause,
    shift_clause_spec, shifttype, shifttype_spec,
};
use crate::symbols::SymbolTable;
use crate::text::{agrees, chars_of, Parsed};
use crate::types::{ConditionCode, Error, Operand2, ProcessingOpcode, Shift, ShiftType};

verus! {

/// A rule applied to the start of `input` gave `r`: the value that the
/// grammar says, with the rest of the input after what was read, or the
/// error that the grammar says.
pub open spec fn parsed<T>(input: Seq<char>, r: Result<(&str, T), Error>, expected: Parsed<T>)
    -> bool {
    match r {
        Ok((rest, value)) => {
            &&& expected matches Ok((v, end))
            &&& v == value
            &&& 0 <= end <= input.len()
            &&& rest@ == input.subrange(end, input.len() as int)
        },
        Err(e) => expected == Err::<(T, int), Error>(e),
    }
}

fn with_rest<'a, T>(input: &'a str, length: usize, r: Result<(T, usize), Error>) -> (out: Result<
    (&'a str, T),
    Error,
>)
    requires
        length == input@.len(),
        r matches Ok((_, end)) ==> end <= length,
    ensures
        match r {
            Ok((value, end)) => out matches Ok((rest, v)) && v == value && rest@
                == input@.subrange(end as int, input@.len() as int),
            Err(e) => out == Err::<(&str, T), Error>(e),
        },
{
    match r {
        Ok((value, end)) => Ok((input.substring_char(end, length), value)),
        Err(e) => Err(e),
    }
}

/// Parses one line of assembly, which lies at `current_address`, into an
/// instruction and the word that it adds to the literal pool at
/// `next_free_address`, if it adds one. Labels are looked up in
/// `symbol_table`. The line holds one instruction and nothing else but
/// spaces around it.
pub fn parse_asm(
    raw: &str,
    current_address: usize,
    next_free_address: usize,
    symbol_table: &SymbolTable,
) -> (r: Result<Assembled, Error>)
    ensures
        r == line_spec(raw@, current_address as int, next_free_address as int, symbol_table@),
{
    let text = chars_of(raw);
    line(&text, current_address, next_free_address, symbol_table)
}

/// Parses a register at the start of `input`.
pub fn parse_reg(input: &str) -> (r: Result<(&str, u8), Error>)
    ensures
        parsed(input@, r, reg_spec(input@, 0)),
{
    let text = chars_of(input);
    with_rest(input, text.len(), reg(&text, 0))
}

/// Parses the name of a shift at the start of `input`.
pub fn parse_shifttype(input: &str) -> (r: Result<(&str, ShiftType), Error>)
    ensures
        parsed(input@, r, shifttype_spec(input@, 0)),
{
    let text = chars_of(input);
    with_rest(input, text.len(), shifttype(&text, 0))
}

/// Parses the mnemonic of a data-processing instruction at the start of `input`.
pub fn parse_processing_opcode(input: &str) -> (r: Result<(&str, ProcessingOpcode), Error>)
    ensures
        parsed(input@, r, processing_opcode_spec(input@, 0)),
{
    let text = chars_of(input);
    with_rest(input, text.len(), processing_opcode(&text, 0))
}

/// Parses the suffix of a conditional branch at the start of `input`.
pub fn parse_condition_code(input: &str) -> (r: Result<(&str, ConditionCode), Error>)
    ensures
        parsed(input@, r, condition_code_spec(input@, 0)),
{
    let text = chars_of(input);
    with_rest(input, text.len(), condition_code(&text, 0))
}

/// Parses an expression at the start of `input`: its magnitude, and whether
/// it had a minus sign.
pub fn parse_expression(input: &str) -> (r: Result<(&str, (u32, bool)), Error>)
    ensures
        parsed(input@, r, expression_spec(input@, 0)),
{
    let text = chars_of(input);
    with_rest(input, text.len(), expression(&text, 0))
}

/// Parses an immediate operand at the start of `input`.
pub fn parse_operand2_constant(input: &str) -> (r: Result<(&str, (Operand2, bool)), Error>)
    ensures
        parsed(input@, r, operand2_constant_spec(input@, 0)),
{
    let text = chars_of(input);
    with_rest(input, text.len(), operand2_constant(&text, 0))
}

/// Parses a register operand at the start of `input`.
pub fn parse_operand2_shifted(input: &str) -> (r: Result<(&str, (Operand2, bool)), Error>)
    ensures
        parsed(input@, r, operand2_shifted_spec(input@, 0)),
{
    let text = chars_of(input);
    with_rest(input, text.len(), operand2_shifted(&text, 0))
}

/// Parses a second operand at the start of `input`.
pub fn parse_operand2(input: &str) -> (r: Result<(&str, (Operand2, bool)), Error>)
    ensures
        parsed(input@, r, operand2_spec(input@, 0)),
{
    let text = chars_of(input);
    with_rest(input, text.len(), operand2(&text, 0))
}

/// Parses a shift at the start of `input`.
pub fn parse_shift(input: &str) -> (r: Result<(&str, Shift), Error>)
    ensures
        parsed(input@, r, shift_clause_spec(input@, 0)),
{
    let text = chars_of(input);
    with_rest(input, text.len(), shift_clause(&text, 0))
}

/// Parses a data-processing instruction at the start of `input`.
pub fn parse_processing(input: &str) -> (r: Result<(&str, Assembled), Error>)
    ensures
        parsed(input@, r, processing_spec(input@, 0)),
{
    let text = chars_of(input);
    with_rest(input, text.len(), processing(&text, 0))
}

/// Parses a multiply instruction at the start of `input`.
pub fn parse_multiply(input: &str) -> (r: Result<(&str, Assembled), Error>)
    ensures
        parsed(input@, r, multiply_spec(input@, 0)),
{
    let text = chars_of(input);
    with_rest(input, text.len(), multiply(&text, 0))
}

/// Parses a transfer instruction at the start of `input`, for an
/// instruction at `current_address` while the literal pool is free from
/// `next_free_address` on.
pub fn parse_transfer(input: &str, current_address: usize, next_free_address: usize) -> (r: Result<
    (&str, Assembled),
    Error,
>)
    ensures
        parsed(
            input@,
            r,
            transfer_spec(input@, 0, current_address as int, next_free_address as int),
        ),
{
    let text = chars_of(input);
    with_rest(input, text.len(), transfer(&text, 0, current_address, next_free_address))
}

/// Parses a branch at the start of `input`, for an instruction at
/// `current_address`, with the labels of `symbol_table`.
pub fn parse_branch<'a>(input: &'a str, current_address: usize, symbol_table: &SymbolTable) -> (r:
    Result<(&'a str, Assembled), Error>)
    ensures
        parsed(input@, r, branch_spec(input@, 0, current_address as int, symbol_table@)),
{
    let text = chars_of(input);
    with_rest(input, text.len(), branch(&text, 0, current_address, symbol_table))
}

/// Parses Halt at the start of `input`.
pub fn parse_halt(input: &str) -> (r: Result<(&str, Assembled), Error>)
    ensures
        parsed(input@, r, halt_spec(input@, 0)),
{
    let text = chars_of(input);
    with_rest(input, text.len(), halt(&text, 0))
}

/// Parses the shorthand `lsl Rn, #amount` at the start of `input`.
pub fn parse_lsl(input: &str) -> (r: Result<(&str, Assembled), Error>)
    ensures
        parsed(input@, r, lsl_spec(input@, 0)),
{
    let text = chars_of(input);
    with_rest(input, text.len(), lsl(&text, 0))
}

} // verus!
