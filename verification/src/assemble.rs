//! The two passes of the assembler: from source text to the binary image.

use vstd::prelude::*;
use crate::constants::BYTES_IN_WORD;
use crate::encode::{encode, encode_spec};
use crate::instructions::{line, line_spec};
use crate::state::word_byte;
use crate::symbols::SymbolTable;
use crate::text::{chars_of, in_class, char_in_class, run_end, skip_run, CharClass};
use crate::types::Error;

verus! {

/// A source of more characters than this is not assembled: its addresses
/// would leave 32 bits.
pub const MAX_SOURCE_LEN: usize = 0x0fff_ffff;

/// Where the line that starts at `pos` ends: at the next line feed, or at
/// the end of the text.
pub open spec fn line_end(s: Seq<char>, pos: int) -> int
    decreases s.len() - pos,
{
    if 0 <= pos < s.len() && s[pos] != '\n' {
        line_end(s, pos + 1)
    } else {
        pos
    }
}

/// Where the blanks at the end of `line` start, looking back from `end`.
pub open spec fn blank_tail_start(line: Seq<char>, end: int) -> int
    decreases end,
{
    if 0 < end <= line.len() && in_class(line[end - 1], CharClass::Blank) {
        blank_tail_start(line, end - 1)
    } else {
        end
    }
}

/// A line without the spaces, tabs and carriage returns at its two ends.
pub open spec fn trimmed(line: Seq<char>) -> Seq<char> {
    let start = run_end(line, 0, CharClass::Blank);
    if start >= line.len() {
        Seq::empty()
    } else {
        line.subrange(start, blank_tail_start(line, line.len() as int))
    }
}

/// What the first pass has gathered: the labels with their addresses, and
/// the lines that hold instructions, in order.
pub struct Gathered {
    pub table: Map<Seq<char>, u32>,
    pub instructions: Seq<Seq<char>>,
}

/// What a line adds to what was gathered. A blank line adds nothing. A line
/// that ends in a colon defines the label before the colon as the address of
/// the next instruction. Any other line is an instruction, four bytes long.
pub open spec fn gather_line(so_far: Gathered, line: Seq<char>) -> Gathered {
    let statement = trimmed(line);
    if statement.len() == 0 {
        so_far
    } else if statement.last() == ':' {
        Gathered {
            table: so_far.table.insert(
                statement.drop_last(),
                (BYTES_IN_WORD * so_far.instructions.len()) as u32,
            ),
            ..so_far
        }
    } else {
        Gathered { instructions: so_far.instructions.push(statement), ..so_far }
    }
}

/// The first pass over the text from `pos` on, given what the lines before
/// have added.
pub open spec fn gather_from(s: Seq<char>, pos: int, so_far: Gathered) -> Gathered
    decreases s.len() - pos,
{
    if 0 <= pos < s.len() {
        let end = line_end(s, pos);
        let gathered = gather_line(so_far, s.subrange(pos, end));
        if pos <= end < s.len() {
            gather_from(s, end + 1, gathered)
        } else {
            gathered
        }
    } else {
        so_far
    }
}

/// The first pass: the labels and the instruction lines of a source.
pub open spec fn extract_labels_and_instructions_spec(source: Seq<char>) -> Gathered {
    gather_from(source, 0, Gathered { table: Map::empty(), instructions: Seq::empty() })
}

/// The four bytes of a word, the lowest first.
pub open spec fn le_bytes(word: u32) -> Seq<u8> {
    seq![word_byte(word, 0), word_byte(word, 1), word_byte(word, 2), word_byte(word, 3)]
}

/// The bytes that an instruction adds to the literal pool.
pub open spec fn pool_bytes(data: Option<u32>) -> Seq<u8> {
    match data {
        Some(word) => le_bytes(word),
        None => Seq::empty(),
    }
}

/// The second pass from instruction `i` on, given the code and the pool that
/// the instructions before it have made. Instruction `i` lies at address
/// `4 * i`; the pool starts after the last instruction, and each word added
/// to it moves the next free address on by four. The image is the code,
/// then the pool. The first line that fails fails the pass.
pub open spec fn second_pass(
    instructions: Seq<Seq<char>>,
    table: Map<Seq<char>, u32>,
    i: int,
    code: Seq<u8>,
    pool: Seq<u8>,
) -> Result<Seq<u8>, Error>
    decreases instructions.len() - i,
{
    if 0 <= i < instructions.len() {
        match line_spec(
            instructions[i],
            BYTES_IN_WORD * i,
            (BYTES_IN_WORD * instructions.len() + pool.len()) as int,
            table,
        ) {
            Err(e) => Err(e),
            Ok((instr, data)) => second_pass(
                instructions,
                table,
                i + 1,
                code + le_bytes(encode_spec(instr)),
                pool + pool_bytes(data),
            ),
        }
    } else {
        Ok(code + pool)
    }
}

/// The binary image of a source: the words of its instructions, then the
/// literal pool, each word with its lowest byte first. A source that is too
/// long is out of range.
pub open spec fn assemble_spec(source: Seq<char>) -> Result<Seq<u8>, Error> {
    if source.len() > MAX_SOURCE_LEN {
        Err(Error::OperandOutOfRange)
    } else {
        let gathered = extract_labels_and_instructions_spec(source);
        second_pass(gathered.instructions, gathered.table, 0, Seq::empty(), Seq::empty())
    }
}

/// The texts of a list of lines.
pub open spec fn texts(lines: Seq<Vec<char>>) -> Seq<Seq<char>> {
    Seq::new(lines.len(), |i: int| lines[i]@)
}

/// A line ends inside the text, at a line feed or at the end of the text,
/// and holds no line feed.
proof fn lemma_line_end(s: Seq<char>, pos: int)
    requires
        0 <= pos <= s.len(),
    ensures
        pos <= line_end(s, pos) <= s.len(),
        line_end(s, pos) < s.len() ==> s[line_end(s, pos)] == '\n',
        forall|i: int| pos <= i < line_end(s, pos) ==> s[i] != '\n',
    decreases s.len() - pos,
{
    if pos < s.len() && s[pos] != '\n' {
        lemma_line_end(s, pos + 1);
    }
}

/// The statement on a line: the line without the blanks at its two ends.
fn trim(text: &Vec<char>, from: usize, to: usize) -> (statement: Vec<char>)
    requires
        from <= to <= text@.len(),
    ensures
        statement@ == trimmed(text@.subrange(from as int, to as int)),
        statement@.len() <= to - from,
{
    let ghost line = text@.subrange(from as int, to as int);
    let mut start: usize = from;
    while start < to && char_in_class(text[start], CharClass::Blank)
        invariant
            from <= start <= to <= text@.len(),
            line == text@.subrange(from as int, to as int),
            run_end(line, 0, CharClass::Blank) == run_end(line, start - from, CharClass::Blank),
        decreases to - start,
    {
        assert(line[start - from] == text@[start as int]);
        start = start + 1;
    }
    let mut statement: Vec<char> = Vec::new();
    if start >= to {
        return statement;
    }
    assert(line[start - from] == text@[start as int]);
    let mut end: usize = to;
    while end > start && char_in_class(text[end - 1], CharClass::Blank)
        invariant
            from <= start < end <= to <= text@.len(),
            line == text@.subrange(from as int, to as int),
            !in_class(text@[start as int], CharClass::Blank),
            blank_tail_start(line, line.len() as int) == blank_tail_start(line, end - from),
        decreases end,
    {
        assert(line[end - 1 - from] == text@[end - 1]);
        end = end - 1;
    }
    assert(line[end - 1 - from] == text@[end - 1]);
    let mut i: usize = start;
    while i < end
        invariant
            from <= start <= i <= end <= to <= text@.len(),
            statement@ == text@.subrange(start as int, i as int),
        decreases end - i,
    {
        statement.push(text[i]);
        assert(statement@ =~= text@.subrange(start as int, i + 1));
        i = i + 1;
    }
    assert(statement@ =~= line.subrange(start - from, end - from));
    statement
}

/// The first pass: splits a source into lines, gathers the labels with
/// their addresses in a symbol table, and keeps the lines that hold
/// instructions. A source that is too long is out of range.
pub fn extract_labels_and_instructions(raw: &str) -> (r: Result<
    (SymbolTable, Vec<Vec<char>>),
    Error,
>)
    ensures
        raw@.len() > MAX_SOURCE_LEN ==> r == Err::<(SymbolTable, Vec<Vec<char>>), Error>(
            Error::OperandOutOfRange,
        ),
        raw@.len() <= MAX_SOURCE_LEN ==> (r matches Ok((table, instructions)) && {
            let gathered = extract_labels_and_instructions_spec(raw@);
            &&& table@ == gathered.table
            &&& texts(instructions@) == gathered.instructions
            &&& instructions@.len() <= MAX_SOURCE_LEN
        }),
{
    let text = chars_of(raw);
    if text.len() > MAX_SOURCE_LEN {
        return Err(Error::OperandOutOfRange);
    }
    let mut symbol_table = SymbolTable::new();
    let mut instructions: Vec<Vec<char>> = Vec::new();
    let mut pos: usize = 0;
    assert(texts(instructions@) =~= Seq::<Seq<char>>::empty());
    while pos < text.len()
        invariant
            text@ == raw@,
            text@.len() <= MAX_SOURCE_LEN,
            pos <= text@.len() + 1,
            instructions@.len() <= pos,
            instructions@.len() <= text@.len(),
            extract_labels_and_instructions_spec(text@) == gather_from(
                text@,
                pos as int,
                Gathered { table: symbol_table@, instructions: texts(instructions@) },
            ),
        decreases text@.len() + 1 - pos,
    {
        let mut end: usize = pos;
        while end < text.len() && text[end] != '\n'
            invariant
                pos <= end <= text@.len(),
                line_end(text@, pos as int) == line_end(text@, end as int),
            decreases text@.len() - end,
        {
            end = end + 1;
        }
        proof {
            lemma_line_end(text@, pos as int);
        }
        let ghost before = Gathered { table: symbol_table@, instructions: texts(instructions@) };
        let mut statement = trim(&text, pos, end);
        let n: usize = statement.len();
        if n > 0 {
            if statement[n - 1] == ':' {
                statement.pop();
                let address: u32 = (BYTES_IN_WORD * instructions.len()) as u32;
                symbol_table.insert_chars(statement, address);
            } else {
                let ghost kept = statement@;
                instructions.push(statement);
                assert(texts(instructions@) =~= before.instructions.push(kept));
            }
        }
        assert(Gathered { table: symbol_table@, instructions: texts(instructions@) }
            == gather_line(before, text@.subrange(pos as int, end as int)));
        pos = end + 1;
    }
    Ok((symbol_table, instructions))
}

fn push_word(bytes: &mut Vec<u8>, word: u32)
    ensures
        final(bytes)@ == old(bytes)@ + le_bytes(word),
{
    bytes.push((word % 0x100) as u8);
    bytes.push((word / 0x100 % 0x100) as u8);
    bytes.push((word / 0x1_0000 % 0x100) as u8);
    bytes.push((word / 0x100_0000) as u8);
    assert(bytes@ =~= old(bytes)@ + le_bytes(word));
}

/// Assembles a source into its binary image: the instruction words in order,
/// then the literal pool, each word with its lowest byte first. The first
/// line that cannot be read fails the assembly with its error.
pub fn assemble(source: &str) -> (r: Result<Vec<u8>, Error>)
    ensures
        match r {
            Ok(image) => assemble_spec(source@) == Ok::<Seq<u8>, Error>(image@),
            Err(e) => assemble_spec(source@) == Err::<Seq<u8>, Error>(e),
        },
{
    let (symbol_table, instructions) = match extract_labels_and_instructions(source) {
        Err(e) => {
            return Err(e);
        },
        Ok(gathered) => gathered,
    };
    let mut assembled: Vec<u8> = Vec::new();
    let mut additional: Vec<u8> = Vec::new();
    let count: usize = instructions.len();
    let mut i: usize = 0;
    let ghost lines = texts(instructions@);
    while i < count
        invariant
            count == instructions@.len(),
            count <= MAX_SOURCE_LEN,
            i <= count,
            lines == texts(instructions@),
            additional@.len() <= BYTES_IN_WORD * i,
            assemble_spec(source@) == second_pass(
                lines,
                symbol_table@,
                i as int,
                assembled@,
                additional@,
            ),
        decreases count - i,
    {
        let next_free_address: usize = BYTES_IN_WORD * count + additional.len();
        assert(lines[i as int] == instructions@[i as int]@);
        match line(&instructions[i], BYTES_IN_WORD * i, next_free_address, &symbol_table) {
            Err(e) => {
                return Err(e);
            },
            Ok((parsed, opt_data)) => {
                push_word(&mut assembled, encode(parsed));
                match opt_data {
                    Some(data) => {
                        push_word(&mut additional, data);
                    },
                    None => {
                        assert(additional@ + pool_bytes(opt_data) =~= additional@);
                    },
                }
            },
        }
        i = i + 1;
    }
    let ghost code = assembled@;
    assembled.append(&mut additional);
    Ok(assembled)
}

} // verus!
