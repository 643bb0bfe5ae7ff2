//! What holds between the encoder and the decoder.

use vstd::prelude::*;
use crate::constants::low_bits;
use crate::decode::{decode_spec, field};
use crate::encode::{
    branch_word, constant_shift_bits, encode_spec, immediate_bits, multiply_word,
    processing_word, register_shift_bits, transfer_word, with_cond,
};
use crate::types::{ConditionalInstruction, Instruction, Operand2, Shift};
use crate::alu::barrel_shifter_spec;
use crate::immediate::{
    expression_to_operand2_spec, immediate_value, lemma_immediate_is_least, representable,
};
use crate::utils::{bit_is_set, signed_24_to_32_spec};

verus! {

proof fn lemma_operand2_fields(value: u8, rotate: u8, amount: u8, shift_type: u8, reg: u8, sreg: u8)
    by (bit_vector)
    requires
        rotate < 16,
        amount < 32,
        shift_type < 4,
        reg < 16,
        sreg < 16,
    ensures
        ({
            let o = immediate_bits(value, rotate);
            &&& o < 0x1000
            &&& field(o, 0, 8) == value
            &&& field(o, 8, 4) == rotate
        }),
        ({
            let o = constant_shift_bits(amount, shift_type, reg);
            &&& o < 0x1000
            &&& !bit_is_set(o, 4)
            &&& field(o, 5, 2) == shift_type
            &&& field(o, 0, 4) == reg
            &&& field(o, 7, 5) == amount
            &&& (o == 0 <==> amount == 0 && shift_type == 0 && reg == 0)
            &&& (o >> 4u32) & 0x9 != 0x9
        }),
        ({
            let o = register_shift_bits(sreg, shift_type, reg);
            &&& o < 0x1000
            &&& bit_is_set(o, 4)
            &&& !bit_is_set(o, 7)
            &&& field(o, 5, 2) == shift_type
            &&& field(o, 0, 4) == reg
            &&& field(o, 8, 4) == sreg
            &&& o != 0
            &&& (o >> 4u32) & 0x9 != 0x9
        }),
{
}

proof fn lemma_operand2_rebuild(x: u32)
    by (bit_vector)
    requires
        x < 0x1000,
    ensures
        x == immediate_bits(field(x, 0, 8), field(x, 8, 4)),
        !bit_is_set(x, 4) ==> x == constant_shift_bits(
            field(x, 7, 5),
            field(x, 5, 2),
            field(x, 0, 4),
        ),
        bit_is_set(x, 4) && !bit_is_set(x, 7) ==> x == register_shift_bits(
            field(x, 8, 4),
            field(x, 5, 2),
            field(x, 0, 4),
        ),
{
}

proof fn lemma_processing_fields(c: u8, imm: bool, op: u8, s: bool, rn: u8, rd: u8, o: u32)
    by (bit_vector)
    requires
        c < 16,
        op < 16,
        rn < 16,
        rd < 16,
        o < 0x1000,
        imm || (o >> 4u32) & 0x9 != 0x9,
    ensures
        ({
            let w = with_cond(c, processing_word(imm, op, s, rn, rd, o));
            &&& field(w, 28, 4) == c
            &&& field(w, 26, 2) == 0
            &&& bit_is_set(w, 25) == imm
            &&& field(w, 21, 4) == op
            &&& bit_is_set(w, 20) == s
            &&& field(w, 16, 4) == rn
            &&& field(w, 12, 4) == rd
            &&& w & 0xfff == o
            &&& !(field(w, 22, 6) == 0 && field(w, 4, 4) == 0x9)
            &&& (w == 0 <==> c == 0 && !imm && op == 0 && !s && rn == 0 && rd == 0 && o == 0)
        }),
{
}

proof fn lemma_processing_rebuild(w: u32)
    by (bit_vector)
    requires
        field(w, 26, 2) == 0,
    ensures
        w == with_cond(
            field(w, 28, 4),
            processing_word(
                bit_is_set(w, 25),
                field(w, 21, 4),
                bit_is_set(w, 20),
                field(w, 16, 4),
                field(w, 12, 4),
                w & 0xfff,
            ),
        ),
        w & 0xfff < 0x1000,
{
}

proof fn lemma_multiply_fields(c: u8, a: bool, s: bool, rd: u8, rn: u8, rs: u8, rm: u8)
    by (bit_vector)
    requires
        c < 16,
        rd < 16,
        rn < 16,
        rs < 16,
        rm < 16,
    ensures
        ({
            let w = with_cond(c, multiply_word(a, s, rd, rn, rs, rm));
            &&& w != 0
            &&& field(w, 28, 4) == c
            &&& field(w, 22, 6) == 0
            &&& field(w, 4, 4) == 0x9
            &&& bit_is_set(w, 21) == a
            &&& bit_is_set(w, 20) == s
            &&& field(w, 16, 4) == rd
            &&& field(w, 12, 4) == rn
            &&& field(w, 8, 4) == rs
            &&& field(w, 0, 4) == rm
        }),
{
}

proof fn lemma_multiply_rebuild(w: u32)
    by (bit_vector)
    requires
        field(w, 22, 6) == 0,
        field(w, 4, 4) == 0x9,
    ensures
        w == with_cond(
            field(w, 28, 4),
            multiply_word(
                bit_is_set(w, 21),
                bit_is_set(w, 20),
                field(w, 16, 4),
                field(w, 12, 4),
                field(w, 8, 4),
                field(w, 0, 4),
            ),
        ),
{
}

proof fn lemma_transfer_fields(
    c: u8,
    i: bool,
    p: bool,
    u: bool,
    l: bool,
    rn: u8,
    rd: u8,
    o: u32,
)
    by (bit_vector)
    requires
        c < 16,
        rn < 16,
        rd < 16,
        o < 0x1000,
    ensures
        ({
            let w = with_cond(c, transfer_word(i, p, u, l, rn, rd, o));
            &&& w != 0
            &&& field(w, 28, 4) == c
            &&& field(w, 26, 2) == 1
            &&& field(w, 21, 2) == 0
            &&& field(w, 22, 6) != 0
            &&& bit_is_set(w, 25) == i
            &&& bit_is_set(w, 24) == p
            &&& bit_is_set(w, 23) == u
            &&& bit_is_set(w, 20) == l
            &&& field(w, 16, 4) == rn
            &&& field(w, 12, 4) == rd
            &&& w & 0xfff == o
        }),
{
}

proof fn lemma_transfer_rebuild(w: u32)
    by (bit_vector)
    requires
        field(w, 26, 2) == 1,
        field(w, 21, 2) == 0,
    ensures
        w == with_cond(
            field(w, 28, 4),
            transfer_word(
                bit_is_set(w, 25),
                bit_is_set(w, 24),
                bit_is_set(w, 23),
                bit_is_set(w, 20),
                field(w, 16, 4),
                field(w, 12, 4),
                w & 0xfff,
            ),
        ),
        w & 0xfff < 0x1000,
{
}

proof fn lemma_branch_fields(c: u8, offset: i32)
    by (bit_vector)
    requires
        c < 16,
        -0x80_0000 <= offset < 0x80_0000,
    ensures
        ({
            let w = with_cond(c, branch_word(offset));
            &&& w != 0
            &&& field(w, 28, 4) == c
            &&& field(w, 24, 4) == 0xa
            &&& field(w, 26, 2) == 2
            &&& field(w, 22, 6) != 0
            &&& signed_24_to_32_spec((w & low_bits(24)) as i32) == offset
        }),
{
}

proof fn lemma_branch_rebuild(w: u32)
    by (bit_vector)
    requires
        field(w, 24, 4) == 0xa,
    ensures
        w == with_cond(
            field(w, 28, 4),
            branch_word(signed_24_to_32_spec((w & low_bits(24)) as i32)),
        ),
        -0x80_0000 <= signed_24_to_32_spec((w & low_bits(24)) as i32) < 0x80_0000,
{
}

proof fn lemma_field_bounds(w: u32)
    by (bit_vector)
    ensures
        field(w, 28, 4) < 16,
        field(w, 16, 4) < 16,
        field(w, 12, 4) < 16,
        field(w, 8, 4) < 16,
        field(w, 0, 4) < 16,
        field(w, 7, 5) < 32,
        field(w & 0xfff, 8, 4) < 16,
        field(w & 0xfff, 0, 4) < 16,
        field(w & 0xfff, 7, 5) < 32,
{
}

/// Decoding undoes encoding: a canonical instruction, encoded and decoded,
/// comes back as it was.
pub proof fn lemma_decode_encode(instr: ConditionalInstruction)
    requires
        instr.is_canonical(),
    ensures
        decode_spec(encode_spec(instr)) == Ok::<ConditionalInstruction, crate::types::Error>(instr),
{
    let c = instr.cond.spec_code();
    match instr.instruction {
        Instruction::Halt => {
            lemma_branch_class(0, 0);
        },
        Instruction::Processing(p) => {
            lemma_operand2_parts(p.operand2);
            let o = crate::encode::encode_operand2_spec(p.operand2);
            lemma_processing_fields(
                c,
                p.operand2 is ConstantShift,
                p.opcode.spec_code(),
                p.set_cond,
                p.rn,
                p.rd,
                o,
            );
        },
        Instruction::Multiply(m) => {
            lemma_multiply_fields(c, m.accumulate, m.set_cond, m.rd, m.rn, m.rs, m.rm);
        },
        Instruction::Transfer(t) => {
            lemma_operand2_parts(t.offset);
            let o = crate::encode::encode_operand2_spec(t.offset);
            lemma_transfer_fields(
                c,
                t.offset is ShiftedReg,
                t.is_preindexed,
                t.up_bit,
                t.load,
                t.rn,
                t.rd,
                o,
            );
        },
        Instruction::Branch(b) => {
            lemma_branch_fields(c, b.offset);
        },
    }
}

/// The twelve bits of a well-formed operand decode to that operand, read as
/// what it is; a register operand never shows the multiply pattern, and only
/// the unshifted `r0` has the bits of all zeros.
proof fn lemma_operand2_parts(op2: Operand2)
    requires
        op2.wf(),
    ensures
        crate::encode::encode_operand2_spec(op2) < 0x1000,
        crate::decode::decode_operand2_spec(
            crate::encode::encode_operand2_spec(op2),
            op2 is ConstantShift,
        ) == Ok::<Operand2, crate::types::Error>(op2),
        op2 is ShiftedReg ==> (crate::encode::encode_operand2_spec(op2) >> 4u32) & 0x9 != 0x9,
        op2 is ShiftedReg ==> (crate::encode::encode_operand2_spec(op2) == 0 <==> op2
            == Operand2::ShiftedReg(0, Shift::ConstantShift(crate::types::ShiftType::Lsl, 0))),
{
    match op2 {
        Operand2::ConstantShift(value, rotate) => {
            lemma_operand2_fields(value, rotate, 0, 0, 0, 0);
        },
        Operand2::ShiftedReg(reg, Shift::ConstantShift(t, amount)) => {
            lemma_operand2_fields(0, 0, amount, t.spec_code(), reg, 0);
        },
        Operand2::ShiftedReg(reg, Shift::RegisterShift(t, sreg)) => {
            lemma_operand2_fields(0, 0, 0, t.spec_code(), reg, sreg);
        },
    }
}

/// Encoding undoes decoding: a word that decodes is the word of what it
/// decodes to, and that instruction is canonical.
pub proof fn lemma_encode_decode(word: u32)
    requires
        decode_spec(word) is Ok,
    ensures
        encode_spec(decode_spec(word)->Ok_0) == word,
        decode_spec(word)->Ok_0.is_canonical(),
{
    let instr = decode_spec(word)->Ok_0;
    lemma_field_bounds(word);
    if word == 0 {
        lemma_branch_class(0, 0);
    } else {
        match instr.instruction {
            Instruction::Halt => {},
            Instruction::Multiply(m) => {
                lemma_multiply_rebuild(word);
            },
            Instruction::Processing(p) => {
                lemma_processing_rebuild(word);
                lemma_operand2_rebuild(word & 0xfff);
                lemma_operand2_parts(p.operand2);
                lemma_processing_fields(
                    instr.cond.spec_code(),
                    p.operand2 is ConstantShift,
                    p.opcode.spec_code(),
                    p.set_cond,
                    p.rn,
                    p.rd,
                    word & 0xfff,
                );
            },
            Instruction::Transfer(t) => {
                lemma_transfer_rebuild(word);
                lemma_operand2_rebuild(word & 0xfff);
            },
            Instruction::Branch(b) => {
                lemma_branch_rebuild(word);
            },
        }
    }
}

/// Bits 26 and 27 of an encoded word tell the kind of instruction: 00 for
/// data processing, multiply and Halt, 01 for a transfer, 10 for a branch.
pub proof fn lemma_class_bits(instr: ConditionalInstruction)
    ensures
        field(encode_spec(instr), 26, 2) == match instr.instruction {
            Instruction::Processing(_) => 0u8,
            Instruction::Multiply(_) => 0u8,
            Instruction::Halt => 0u8,
            Instruction::Transfer(_) => 1u8,
            Instruction::Branch(_) => 2u8,
        },
{
    let c = instr.cond.spec_code();
    match instr.instruction {
        Instruction::Halt => {
            lemma_class_of_words(c, false, false, false, false, 0, 0, 0, 0, 0, 0);
        },
        Instruction::Processing(p) => {
            match p.operand2 {
                Operand2::ConstantShift(value, rotate) => {
                    lemma_class_of_words(
                        c,
                        true,
                        p.set_cond,
                        false,
                        false,
                        p.opcode.spec_code(),
                        p.rn,
                        p.rd,
                        rotate,
                        value,
                        0,
                    );
                },
                Operand2::ShiftedReg(reg, Shift::ConstantShift(t, amount)) => {
                    lemma_class_of_words(
                        c,
                        false,
                        p.set_cond,
                        false,
                        false,
                        p.opcode.spec_code(),
                        p.rn,
                        p.rd,
                        amount,
                        t.spec_code(),
                        reg,
                    );
                },
                Operand2::ShiftedReg(reg, Shift::RegisterShift(t, sreg)) => {
                    lemma_class_of_words(
                        c,
                        false,
                        p.set_cond,
                        false,
                        false,
                        p.opcode.spec_code(),
                        p.rn,
                        p.rd,
                        sreg,
                        t.spec_code(),
                        reg,
                    );
                },
            }
        },
        Instruction::Multiply(m) => {
            lemma_class_of_words(
                c,
                m.accumulate,
                m.set_cond,
                false,
                false,
                0,
                m.rd,
                m.rn,
                m.rs,
                m.rm,
                0,
            );
        },
        Instruction::Transfer(t) => {
            match t.offset {
                Operand2::ConstantShift(value, rotate) => {
                    lemma_class_of_words(
                        c,
                        t.is_preindexed,
                        t.up_bit,
                        t.load,
                        false,
                        0,
                        t.rn,
                        t.rd,
                        rotate,
                        value,
                        0,
                    );
                },
                Operand2::ShiftedReg(reg, Shift::ConstantShift(st, amount)) => {
                    lemma_class_of_words(
                        c,
                        t.is_preindexed,
                        t.up_bit,
                        t.load,
                        true,
                        0,
                        t.rn,
                        t.rd,
                        amount,
                        st.spec_code(),
                        reg,
                    );
                },
                Operand2::ShiftedReg(reg, Shift::RegisterShift(st, sreg)) => {
                    lemma_class_of_words(
                        c,
                        t.is_preindexed,
                        t.up_bit,
                        t.load,
                        true,
                        0,
                        t.rn,
                        t.rd,
                        sreg,
                        st.spec_code(),
                        reg,
                    );
                },
            }
        },
        Instruction::Branch(b) => {
            lemma_branch_class(c, b.offset);
        },
    }
}

/// A branch word has 10 in bits 26 and 27, whatever its offset; and no
/// condition over no body is the word of all zeros.
proof fn lemma_branch_class(c: u8, offset: i32)
    by (bit_vector)
    requires
        c < 16,
    ensures
        field(with_cond(c, branch_word(offset)), 26, 2) == 2,
        with_cond(0u8, 0u32) == 0,
{
}

/// No field of a body reaches bits 26 and 27, whatever its fields hold.
proof fn lemma_class_of_words(
    c: u8,
    f1: bool,
    f2: bool,
    f3: bool,
    f4: bool,
    op: u8,
    r1: u8,
    r2: u8,
    x: u8,
    y: u8,
    z: u8,
)
    by (bit_vector)
    requires
        c < 16,
        op < 16,
    ensures
        field(with_cond(c, 0), 26, 2) == 0,
        field(with_cond(c, processing_word(f1, op, f2, r1, r2, immediate_bits(y, x))), 26, 2) == 0,
        field(
            with_cond(c, processing_word(f1, op, f2, r1, r2, constant_shift_bits(x, y, z))),
            26,
            2,
        ) == 0,
        field(
            with_cond(c, processing_word(f1, op, f2, r1, r2, register_shift_bits(x, y, z))),
            26,
            2,
        ) == 0,
        field(with_cond(c, multiply_word(f1, f2, r1, r2, x, y)), 26, 2) == 0,
        field(with_cond(c, transfer_word(f4, f1, f2, f3, r1, r2, immediate_bits(y, x))), 26, 2)
            == 1,
        field(
            with_cond(c, transfer_word(f4, f1, f2, f3, r1, r2, constant_shift_bits(x, y, z))),
            26,
            2,
        ) == 1,
        field(
            with_cond(c, transfer_word(f4, f1, f2, f3, r1, r2, register_shift_bits(x, y, z))),
            26,
            2,
        ) == 1,
{
}

/// An immediate operand, encoded, decoded and resolved by the barrel shifter,
/// is the word it stands for, whatever the registers hold: its value rotated
/// right by twice its rotate.
pub proof fn lemma_immediate_survives_encoding(value: u8, rotate: u8, regs: Seq<u32>)
    requires
        rotate < 16,
    ensures
        barrel_shifter_spec(
            crate::decode::decode_operand2_immediate_spec(
                crate::encode::encode_operand2_spec(Operand2::ConstantShift(value, rotate)),
            ),
            regs,
        ).0 == immediate_value(value, rotate),
{
    lemma_operand2_parts(Operand2::ConstantShift(value, rotate));
}

/// A representable word, written as an immediate, encoded, decoded and
/// resolved by the barrel shifter, is that word again.
pub proof fn lemma_constant_survives_encoding(v: u32, regs: Seq<u32>)
    requires
        representable(v),
    ensures
        expression_to_operand2_spec(v) is Ok,
        barrel_shifter_spec(
            crate::decode::decode_operand2_immediate_spec(
                crate::encode::encode_operand2_spec(expression_to_operand2_spec(v)->Ok_0),
            ),
            regs,
        ).0 == v,
{
    lemma_immediate_is_least(v);
    let op2 = expression_to_operand2_spec(v)->Ok_0;
    match op2 {
        Operand2::ConstantShift(value, rotate) => {
            lemma_immediate_survives_encoding(value, rotate, regs);
        },
        Operand2::ShiftedReg(_, _) => {},
    }
}

} // verus!
