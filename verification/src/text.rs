//! Characters, runs of characters and numbers in a line of source text.

use vstd::prelude::*;
use crate::types::Error;

verus! {

/// What a rule of the grammar makes of a text from a position on: a value
/// and the position after what it read, or an error.
pub type Parsed<T> = Result<(T, int), Error>;

/// The result of an executable rule agrees with what the grammar says.
pub open spec fn agrees<T>(r: Result<(T, usize), Error>, expected: Parsed<T>) -> bool {
    match r {
        Ok((value, end)) => expected == Ok::<(T, int), Error>((value, end as int)),
        Err(e) => expected == Err::<(T, int), Error>(e),
    }
}

/// A class of characters.
#[derive(Clone, Copy, Debug, PartialEq, Eq, Structural)]
pub enum CharClass {
    /// A space or a tab.
    Space,
    /// `0` to `9`.
    Digit,
    /// `0` to `9`, `a` to `f`, `A` to `F`.
    HexDigit,
    /// An ASCII letter or digit.
    Alphanumeric,
    /// A space, a tab or a carriage return.
    Blank,
}

/// `0` to `9`.
pub open spec fn is_digit(c: char) -> bool {
    '0' as u32 <= c as u32 <= '9' as u32
}

/// `a` to `f`.
pub open spec fn is_lower_hex(c: char) -> bool {
    'a' as u32 <= c as u32 <= 'f' as u32
}

/// `A` to `F`.
pub open spec fn is_upper_hex(c: char) -> bool {
    'A' as u32 <= c as u32 <= 'F' as u32
}

/// An ASCII letter.
pub open spec fn is_letter(c: char) -> bool {
    'a' as u32 <= c as u32 <= 'z' as u32 || 'A' as u32 <= c as u32 <= 'Z' as u32
}

/// `c` belongs to the class.
pub open spec fn in_class(c: char, class: CharClass) -> bool {
    match class {
        CharClass::Space => c == ' ' || c == '\t',
        CharClass::Digit => is_digit(c),
        CharClass::HexDigit => is_digit(c) || is_lower_hex(c) || is_upper_hex(c),
        CharClass::Alphanumeric => is_digit(c) || is_letter(c),
        CharClass::Blank => c == ' ' || c == '\t' || c == '\r',
    }
}

/// The character at `pos` is `c`.
pub open spec fn char_at(s: Seq<char>, pos: int, c: char) -> bool {
    0 <= pos < s.len() && s[pos] == c
}

/// The character at `pos` belongs to the class.
pub open spec fn class_at(s: Seq<char>, pos: int, class: CharClass) -> bool {
    0 <= pos < s.len() && in_class(s[pos], class)
}

/// The text has the characters of `word` from `pos` on.
pub open spec fn word_at(s: Seq<char>, pos: int, word: Seq<char>) -> bool {
    0 <= pos && pos + word.len() <= s.len() && s.subrange(pos, pos + word.len()) == word
}

/// The position after the longest run of characters of the class from `pos` on.
pub open spec fn run_end(s: Seq<char>, pos: int, class: CharClass) -> int
    decreases s.len() - pos,
{
    if class_at(s, pos, class) {
        run_end(s, pos + 1, class)
    } else {
        pos
    }
}

/// The value of a hexadecimal digit; of a decimal digit it is the digit.
pub open spec fn digit_value(c: char) -> nat {
    if is_digit(c) {
        (c as u32 - '0' as u32) as nat
    } else if is_lower_hex(c) {
        (c as u32 - 'a' as u32 + 10) as nat
    } else {
        (c as u32 - 'A' as u32 + 10) as nat
    }
}

/// The number that a sequence of digits writes in the given radix.
pub open spec fn number_value(digits: Seq<char>, radix: nat) -> nat
    decreases digits.len(),
{
    if digits.len() == 0 {
        0
    } else {
        number_value(digits.drop_last(), radix) * radix + digit_value(digits.last())
    }
}

/// One or more characters of a class: the position after the longest run of
/// them, or a syntax error where there is none.
pub open spec fn run1_spec(s: Seq<char>, pos: int, class: CharClass) -> Parsed<()> {
    if class_at(s, pos, class) {
        Ok(((), run_end(s, pos, class)))
    } else {
        Err(Error::BadSyntax)
    }
}

/// An unsigned number: one or more digits of the radix (10 or 16). A number
/// that does not fit 32 bits is out of range.
pub open spec fn number_spec(s: Seq<char>, pos: int, radix: nat) -> Parsed<u32> {
    let class = if radix == 16 {
        CharClass::HexDigit
    } else {
        CharClass::Digit
    };
    if !class_at(s, pos, class) {
        Err(Error::BadSyntax)
    } else {
        let end = run_end(s, pos, class);
        let value = number_value(s.subrange(pos, end), radix);
        if value <= u32::MAX {
            Ok((value as u32, end))
        } else {
            Err(Error::OperandOutOfRange)
        }
    }
}

/// A run ends inside the text, at or after its start; every character of it
/// is of the class, and the one after it is not.
pub proof fn lemma_run_end(s: Seq<char>, pos: int, class: CharClass)
    requires
        0 <= pos <= s.len(),
    ensures
        pos <= run_end(s, pos, class) <= s.len(),
        forall|i: int| pos <= i < run_end(s, pos, class) ==> in_class(#[trigger] s[i], class),
        !class_at(s, run_end(s, pos, class), class),
    decreases s.len() - pos,
{
    if class_at(s, pos, class) {
        lemma_run_end(s, pos + 1, class);
    }
}

/// The characters of a string, one by one.
pub fn chars_of(s: &str) -> (text: Vec<char>)
    ensures
        text@ == s@,
{
    let mut text: Vec<char> = Vec::new();
    for c in it: s.chars()
        invariant
            text@ == it.seq().take(it.index()),
    {
        text.push(c);
    }
    text
}

/// Whether `c` belongs to the class.
pub fn char_in_class(c: char, class: CharClass) -> (r: bool)
    ensures
        r == in_class(c, class),
{
    let n: u32 = c as u32;
    let digit = '0' as u32 <= n && n <= '9' as u32;
    match class {
        CharClass::Space => c == ' ' || c == '\t',
        CharClass::Digit => digit,
        CharClass::HexDigit => digit || ('a' as u32 <= n && n <= 'f' as u32) || ('A' as u32 <= n
            && n <= 'F' as u32),
        CharClass::Alphanumeric => digit || ('a' as u32 <= n && n <= 'z' as u32) || ('A' as u32
            <= n && n <= 'Z' as u32),
        CharClass::Blank => c == ' ' || c == '\t' || c == '\r',
    }
}

/// Whether the character at `pos` is `c`.
pub fn is_char_at(text: &Vec<char>, pos: usize, c: char) -> (r: bool)
    ensures
        r == char_at(text@, pos as int, c),
        r ==> pos < text@.len() <= usize::MAX,
{
    pos < text.len() && text[pos] == c
}

/// Whether the character at `pos` belongs to the class.
pub fn is_class_at(text: &Vec<char>, pos: usize, class: CharClass) -> (r: bool)
    ensures
        r == class_at(text@, pos as int, class),
        r ==> pos < text@.len() <= usize::MAX,
{
    pos < text.len() && char_in_class(text[pos], class)
}

/// Whether the text has the three characters `a`, `b`, `c` from `pos` on.
pub fn is_word3_at(text: &Vec<char>, pos: usize, a: char, b: char, c: char) -> (r: bool)
    ensures
        r == word_at(text@, pos as int, seq![a, b, c]),
        r ==> pos + 3 <= text@.len() <= usize::MAX,
{
    if pos <= text.len() && text.len() - pos >= 3 {
        let r = text[pos] == a && text[pos + 1] == b && text[pos + 2] == c;
        proof {
            let sub = text@.subrange(pos as int, pos + 3);
            assert(sub[0] == text@[pos as int]);
            assert(sub[1] == text@[pos + 1]);
            assert(sub[2] == text@[pos + 2]);
            if r {
                assert(sub =~= seq![a, b, c]);
            }
        }
        r
    } else {
        false
    }
}

/// Whether the text has the two characters `a`, `b` from `pos` on.
pub fn is_word2_at(text: &Vec<char>, pos: usize, a: char, b: char) -> (r: bool)
    ensures
        r == word_at(text@, pos as int, seq![a, b]),
        r ==> pos + 2 <= text@.len() <= usize::MAX,
{
    if pos <= text.len() && text.len() - pos >= 2 {
        let r = text[pos] == a && text[pos + 1] == b;
        proof {
            let sub = text@.subrange(pos as int, pos + 2);
            assert(sub[0] == text@[pos as int]);
            assert(sub[1] == text@[pos + 1]);
            if r {
                assert(sub =~= seq![a, b]);
            }
        }
        r
    } else {
        false
    }
}

/// The position after the longest run of characters of the class from `pos` on.
pub fn skip_run(text: &Vec<char>, pos: usize, class: CharClass) -> (end: usize)
    requires
        pos <= text@.len(),
    ensures
        end == run_end(text@, pos as int, class),
        pos <= end <= text@.len() <= usize::MAX,
{
    let mut end: usize = pos;
    while end < text.len() && char_in_class(text[end], class)
        invariant
            pos <= end <= text@.len(),
            run_end(text@, pos as int, class) == run_end(text@, end as int, class),
        decreases text@.len() - end,
    {
        end = end + 1;
    }
    end
}

/// Reads one or more characters of the class.
pub fn run1(text: &Vec<char>, pos: usize, class: CharClass) -> (r: Result<((), usize), Error>)
    ensures
        agrees(r, run1_spec(text@, pos as int, class)),
        r matches Ok((_, end)) ==> pos < end <= text@.len(),
{
    if is_class_at(text, pos, class) {
        proof {
            lemma_run_end(text@, pos + 1, class);
        }
        Ok(((), skip_run(text, pos, class)))
    } else {
        Err(Error::BadSyntax)
    }
}

fn digit_of(c: char) -> (d: u64)
    requires
        in_class(c, CharClass::HexDigit),
    ensures
        d == digit_value(c),
        d < 16,
        is_digit(c) ==> d < 10,
{
    let n: u32 = c as u32;
    if '0' as u32 <= n && n <= '9' as u32 {
        (n - '0' as u32) as u64
    } else if 'a' as u32 <= n && n <= 'f' as u32 {
        (n - 'a' as u32 + 10) as u64
    } else {
        (n - 'A' as u32 + 10) as u64
    }
}

/// A number grows with every digit written after it.
proof fn lemma_number_grows(digits: Seq<char>, radix: nat, shorter: int)
    requires
        radix >= 1,
        0 <= shorter <= digits.len(),
    ensures
        number_value(digits.take(shorter), radix) <= number_value(digits, radix),
    decreases digits.len() - shorter,
{
    if shorter < digits.len() {
        let longer = digits.take(shorter + 1);
        assert(longer.drop_last() =~= digits.take(shorter));
        assert(number_value(longer.drop_last(), radix) <= number_value(longer.drop_last(), radix)
            * radix) by (nonlinear_arith)
            requires
                radix >= 1,
        ;
        lemma_number_grows(digits, radix, shorter + 1);
    } else {
        assert(digits.take(shorter) =~= digits);
    }
}

/// Reads an unsigned number in radix 10 or 16.
pub fn number(text: &Vec<char>, pos: usize, radix: u32) -> (r: Result<(u32, usize), Error>)
    requires
        radix == 10 || radix == 16,
    ensures
        agrees(r, number_spec(text@, pos as int, radix as nat)),
        r matches Ok((_, end)) ==> pos < end <= text@.len(),
{
    let class = if radix == 16 {
        CharClass::HexDigit
    } else {
        CharClass::Digit
    };
    if !is_class_at(text, pos, class) {
        return Err(Error::BadSyntax);
    }
    let end: usize = skip_run(text, pos, class);
    proof {
        lemma_run_end(text@, pos as int, class);
        lemma_run_end(text@, pos + 1, class);
    }
    let ghost digits = text@.subrange(pos as int, end as int);
    let mut value: u64 = 0;
    let mut fits: bool = true;
    let mut i: usize = pos;
    while i < end
        invariant
            pos <= i <= end <= text@.len(),
            radix == 10 || radix == 16,
            class == (if radix == 16 {
                CharClass::HexDigit
            } else {
                CharClass::Digit
            }),
            digits == text@.subrange(pos as int, end as int),
            forall|j: int| pos <= j < end ==> in_class(#[trigger] text@[j], class),
            fits ==> value == number_value(digits.take(i - pos), radix as nat),
            fits ==> value <= u32::MAX,
            !fits ==> number_value(digits, radix as nat) > u32::MAX,
        decreases end - i,
    {
        if fits {
            let c = text[i];
            assert(in_class(text@[i as int], class));
            let d = digit_of(c);
            let ghost longer = digits.take(i - pos + 1);
            proof {
                assert(longer.drop_last() =~= digits.take(i - pos));
                assert(longer.last() == c);
            }
            value = if radix == 16 {
                value * 16 + d
            } else {
                value * 10 + d
            };
            if value > 0xffff_ffff {
                fits = false;
                proof {
                    lemma_number_grows(digits, radix as nat, i - pos + 1);
                }
            }
        }
        i = i + 1;
    }
    if fits {
        assert(digits.take(end - pos) =~= digits);
        Ok((value as u32, end))
    } else {
        Err(Error::OperandOutOfRange)
    }
}

} // verus!
