use arm11::constants::PC;
use arm11::immediate::expression_to_operand2;
use arm11::parse::{
    parse_asm, parse_branch, parse_condition_code, parse_expression, parse_halt, parse_lsl,
    parse_multiply, parse_operand2, parse_operand2_constant, parse_operand2_shifted,
    parse_processing, parse_processing_opcode, parse_reg, parse_shift, parse_shifttype,
    parse_transfer,
};
use arm11::symbols::SymbolTable;
use arm11::types::{
    ConditionCode, ConditionalInstruction, Error, Instruction, InstructionBranch,
    InstructionMultiply, InstructionProcessing, InstructionTransfer, Operand2, ProcessingOpcode,
    Shift, ShiftType,
};

#[test]
fn test_parse_reg() {
    assert_eq!(parse_reg("r12").expect("parse reg failed").1, 12);
    assert!(parse_reg("r123").is_err())
}

#[test]
fn test_parse_shifttype() {
    assert_eq!(
        parse_shifttype("lsl").expect("parse shifttype failed").1,
        ShiftType::Lsl
    );
    assert_eq!(
        parse_shifttype("lsr2341234")
            .expect("parse shifttype failed")
            .1,
        ShiftType::Lsr
    );
}

#[test]
fn test_parse_processing_opcode() {
    assert_eq!(
        parse_processing_opcode("eor")
            .expect("parse shifttype failed")
            .1,
        ProcessingOpcode::Eor
    );
    assert_eq!(
        parse_processing_opcode("mov2341234")
            .expect("parse shifttype failed")
            .1,
        ProcessingOpcode::Mov
    );
}

#[test]
fn test_parse_expression() {
    assert_eq!(
        parse_expression("#123456")
            .expect("parse expression failed")
            .1,
        (123456, false)
    );
    assert_eq!(
        parse_expression("#-123456")
            .expect("parse expression failed")
            .1,
        (123456, true)
    );
    assert_eq!(
        parse_expression("#0x123456")
            .expect("parse expression failed")
            .1,
        (0x123456, false)
    );
    assert_eq!(
        parse_expression("#-0x123456")
            .expect("parse expression failed")
            .1,
        (0x123456, true)
    );
}

#[test]
fn test_parse_operand2_constant() {
    assert_eq!(
        parse_operand2_constant("#0x2")
            .expect("parse operand 2 constant failed")
            .1,
        (Operand2::ConstantShift(0x2, 0), false)
    );

    assert_eq!(
        parse_operand2_constant("#0x3f00000")
            .expect("parse operand 2 constant failed")
            .1,
        (Operand2::ConstantShift(0x3f, 6), false)
    );
}

#[test]
fn test_parse_operand2_shifted() {
    assert_eq!(
        parse_operand2_shifted("r2,lsr #2")
            .expect("parse operand 2 shifted failed")
            .1,
        (
            Operand2::ShiftedReg(2, Shift::ConstantShift(ShiftType::Lsr, 2)),
            false
        )
    )
}

#[test]
fn test_parse_processing() {
    assert_eq!(
        parse_processing("add r3,r1,r2")
            .expect("parse processing failed")
            .1,
        (
            ConditionalInstruction {
                cond: ConditionCode::Al,
                instruction: Instruction::Processing(InstructionProcessing {
                    opcode: ProcessingOpcode::Add,
                    rd: 3,
                    rn: 1,
                    set_cond: false,
                    operand2: Operand2::ShiftedReg(2, Shift::ConstantShift(ShiftType::Lsl, 0))
                })
            },
            None
        )
    );
}

#[test]
fn test_parse_multiply() {
    assert_eq!(
        parse_multiply("mul r3,r1,r2")
            .expect("parse multiply failed")
            .1,
        (
            ConditionalInstruction {
                cond: ConditionCode::Al,
                instruction: Instruction::Multiply(InstructionMultiply {
                    accumulate: false,
                    set_cond: false,
                    rd: 3,
                    rm: 1,
                    rs: 2,
                    rn: 0
                })
            },
            None
        )
    );

    assert_eq!(
        parse_multiply("mla r3,r1,r2,r4")
            .expect("parse multiply failed")
            .1,
        (
            ConditionalInstruction {
                cond: ConditionCode::Al,
                instruction: Instruction::Multiply(InstructionMultiply {
                    accumulate: true,
                    set_cond: false,
                    rd: 3,
                    rm: 1,
                    rs: 2,
                    rn: 4
                })
            },
            None
        )
    );
}

#[test]
fn test_parse_branch() {
    let mut symbol_table = SymbolTable::new();
    symbol_table.insert("foo", 0x14);
    symbol_table.insert("wait", 0x4);

    assert_eq!(
        parse_branch("beq foo", 0xc, &symbol_table)
            .expect("parse branch failed")
            .1,
        (
            ConditionalInstruction {
                cond: ConditionCode::Eq,
                instruction: Instruction::Branch(InstructionBranch { offset: 0 })
            },
            None
        )
    );

    assert_eq!(
        parse_branch("bne wait", 0xc, &symbol_table)
            .expect("parse branch failed")
            .1,
        (
            ConditionalInstruction {
                cond: ConditionCode::Ne,
                instruction: Instruction::Branch(InstructionBranch { offset: -4 })
            },
            None
        )
    );
}

#[test]
fn test_parse_transfer_immediate() {
    assert_eq!(
        parse_transfer("ldr r0,=0x02", 0x0, 0xc)
            .expect("parse transfer failed")
            .1,
        (
            ConditionalInstruction {
                cond: ConditionCode::Al,
                instruction: Instruction::Processing(InstructionProcessing {
                    opcode: ProcessingOpcode::Mov,
                    set_cond: false,
                    rn: 0,
                    rd: 0,
                    operand2: Operand2::ConstantShift(0x02, 0)
                })
            },
            None
        )
    );

    assert_eq!(
        parse_transfer("ldr r2,=0x20200020", 0x0, 0x8)
            .expect("parse transfer immediate failed")
            .1,
        (
            ConditionalInstruction {
                cond: ConditionCode::Al,
                instruction: Instruction::Transfer(InstructionTransfer {
                    is_preindexed: true,
                    up_bit: true,
                    load: true,
                    rn: PC as u8,
                    rd: 2,
                    offset: Operand2::ConstantShift(0x0, 0),
                })
            },
            Some(0x20200020)
        )
    )
}

#[test]
fn test_parse_halt() {
    assert_eq!(
        parse_halt("andeq r0,r0,r0").expect("parse halt failed").1,
        (
            ConditionalInstruction {
                cond: ConditionCode::Eq,
                instruction: Instruction::Halt
            },
            None
        )
    );
}

fn processing(
    opcode: ProcessingOpcode,
    set_cond: bool,
    rn: u8,
    rd: u8,
    operand2: Operand2,
) -> (ConditionalInstruction, Option<u32>) {
    (
        ConditionalInstruction {
            cond: ConditionCode::Al,
            instruction: Instruction::Processing(InstructionProcessing {
                opcode,
                set_cond,
                rn,
                rd,
                operand2,
            }),
        },
        None,
    )
}

fn transfer(
    is_preindexed: bool,
    up_bit: bool,
    load: bool,
    rn: u8,
    rd: u8,
    offset: Operand2,
) -> (ConditionalInstruction, Option<u32>) {
    (
        ConditionalInstruction {
            cond: ConditionCode::Al,
            instruction: Instruction::Transfer(InstructionTransfer {
                is_preindexed,
                up_bit,
                load,
                rn,
                rd,
                offset,
            }),
        },
        None,
    )
}

fn unshifted(reg: u8) -> Operand2 {
    Operand2::ShiftedReg(reg, Shift::ConstantShift(ShiftType::Lsl, 0))
}

#[test]
fn rest_of_the_input_is_handed_back() {
    let (rest, reg) = parse_reg("r12,r3").expect("register");
    assert_eq!(reg, 12);
    assert_eq!(rest, ",r3");
    let (rest, shift) = parse_shifttype("lsr2341234").expect("shift type");
    assert_eq!(shift, ShiftType::Lsr);
    assert_eq!(rest, "2341234");
}

#[test]
fn registers_outside_the_permitted_set() {
    assert_eq!(parse_reg("r13"), Err(Error::BadRegister));
    assert_eq!(parse_reg("r14"), Err(Error::BadRegister));
    assert_eq!(parse_reg("r17"), Err(Error::BadRegister));
    assert_eq!(parse_reg("r99999999999"), Err(Error::BadRegister));
    assert_eq!(parse_reg("r15").expect("pc").1, 15);
    assert_eq!(parse_reg("r16").expect("cpsr").1, 16);
    assert_eq!(parse_reg("r0").expect("r0").1, 0);
    assert_eq!(parse_reg("x1"), Err(Error::BadSyntax));
    assert_eq!(parse_reg("r"), Err(Error::BadSyntax));
    assert_eq!(parse_reg(""), Err(Error::BadSyntax));
}

#[test]
fn condition_codes() {
    assert_eq!(parse_condition_code("eq").expect("eq").1, ConditionCode::Eq);
    assert_eq!(parse_condition_code("ne").expect("ne").1, ConditionCode::Ne);
    assert_eq!(parse_condition_code("ge").expect("ge").1, ConditionCode::Ge);
    assert_eq!(parse_condition_code("lt").expect("lt").1, ConditionCode::Lt);
    assert_eq!(parse_condition_code("gt").expect("gt").1, ConditionCode::Gt);
    assert_eq!(parse_condition_code("le").expect("le").1, ConditionCode::Le);
    assert_eq!(parse_condition_code("al"), Err(Error::BadSyntax));
}

#[test]
fn literals_that_leave_32_bits() {
    assert_eq!(
        parse_expression("#4294967295").expect("largest").1,
        (0xffff_ffff, false)
    );
    assert_eq!(
        parse_expression("#4294967296"),
        Err(Error::OperandOutOfRange)
    );
    assert_eq!(
        parse_expression("#0xffffffff").expect("largest").1,
        (0xffff_ffff, false)
    );
    assert_eq!(
        parse_expression("#0x100000000"),
        Err(Error::OperandOutOfRange)
    );
    assert_eq!(parse_expression("#0xAbC").expect("mixed case").1, (0xabc, false));
    assert_eq!(parse_expression("#"), Err(Error::BadSyntax));
    assert_eq!(parse_expression("12"), Err(Error::BadSyntax));
}

#[test]
fn immediates_with_the_least_rotate() {
    assert_eq!(
        expression_to_operand2(0x2),
        Ok(Operand2::ConstantShift(0x2, 0))
    );
    assert_eq!(
        expression_to_operand2(0xff),
        Ok(Operand2::ConstantShift(0xff, 0))
    );
    assert_eq!(
        expression_to_operand2(0x3f00000),
        Ok(Operand2::ConstantShift(0x3f, 6))
    );
    assert_eq!(
        expression_to_operand2(0x100),
        Ok(Operand2::ConstantShift(0x1, 12))
    );
    // The value wraps around the ends of the word.
    assert_eq!(
        expression_to_operand2(0xc000003f),
        Ok(Operand2::ConstantShift(0xff, 1))
    );
    assert_eq!(
        expression_to_operand2(0xff000000),
        Ok(Operand2::ConstantShift(0xff, 4))
    );
    assert_eq!(expression_to_operand2(0x101), Err(Error::OperandOutOfRange));
    assert_eq!(
        expression_to_operand2(0xffffffff),
        Err(Error::OperandOutOfRange)
    );
    assert_eq!(
        parse_operand2_constant("#0x101"),
        Err(Error::OperandOutOfRange)
    );
}

#[test]
fn every_immediate_found_stands_for_its_value() {
    let mut value: u32 = 1;
    for _ in 0..2000 {
        value = value.wrapping_mul(1664525).wrapping_add(1013904223);
        let byte = value >> 24;
        let rotate = (value >> 8) & 0xf;
        let word = byte.rotate_right(2 * rotate);
        match expression_to_operand2(word) {
            Ok(Operand2::ConstantShift(v, r)) => {
                assert!(r < 16);
                assert!(u32::from(r) <= rotate);
                assert_eq!(u32::from(v).rotate_right(2 * u32::from(r)), word);
            }
            other => panic!("{:?} for {:#x}", other, word),
        }
    }
}

#[test]
fn shifts() {
    assert_eq!(
        parse_shift("lsl r2").expect("by register").1,
        Shift::RegisterShift(ShiftType::Lsl, 2)
    );
    assert_eq!(
        parse_shift("ror #2").expect("by constant").1,
        Shift::ConstantShift(ShiftType::Ror, 2)
    );
    assert_eq!(
        parse_shift("asr#31").expect("without space").1,
        Shift::ConstantShift(ShiftType::Asr, 31)
    );
    assert_eq!(parse_shift("lsl #32"), Err(Error::OperandOutOfRange));
    assert_eq!(parse_shift("lsl r13"), Err(Error::BadRegister));
    assert_eq!(parse_shift("rol #1"), Err(Error::BadSyntax));
}

#[test]
fn second_operands() {
    assert_eq!(
        parse_operand2("#0xff").expect("immediate").1,
        (Operand2::ConstantShift(0xff, 0), false)
    );
    assert_eq!(
        parse_operand2("#-4").expect("negative").1,
        (Operand2::ConstantShift(4, 0), true)
    );
    assert_eq!(
        parse_operand2("r3").expect("register").1,
        (unshifted(3), false)
    );
    assert_eq!(
        parse_operand2("r3, lsl r4").expect("shifted by register").1,
        (
            Operand2::ShiftedReg(3, Shift::RegisterShift(ShiftType::Lsl, 4)),
            false
        )
    );
    let (rest, value) = parse_operand2("r3,r4").expect("no shift follows");
    assert_eq!(value, (unshifted(3), false));
    assert_eq!(rest, ",r4");
}

#[test]
fn processing_forms() {
    assert_eq!(
        parse_processing("mov r1,#0x1").expect("mov").1,
        processing(
            ProcessingOpcode::Mov,
            false,
            0,
            1,
            Operand2::ConstantShift(1, 0)
        )
    );
    assert_eq!(
        parse_processing("cmp r1,#3").expect("cmp").1,
        processing(
            ProcessingOpcode::Cmp,
            true,
            1,
            0,
            Operand2::ConstantShift(3, 0)
        )
    );
    assert_eq!(
        parse_processing("tst r2,r3, lsl #1").expect("tst").1,
        processing(
            ProcessingOpcode::Tst,
            true,
            2,
            0,
            Operand2::ShiftedReg(3, Shift::ConstantShift(ShiftType::Lsl, 1))
        )
    );
    assert_eq!(
        parse_processing("sub r5,r6,#0xff00").expect("sub").1,
        processing(
            ProcessingOpcode::Sub,
            false,
            6,
            5,
            Operand2::ConstantShift(0xff, 12)
        )
    );
    assert_eq!(
        parse_processing("orr r1,r2,r3,ror r4").expect("orr").1,
        processing(
            ProcessingOpcode::Orr,
            false,
            2,
            1,
            Operand2::ShiftedReg(3, Shift::RegisterShift(ShiftType::Ror, 4))
        )
    );
    assert_eq!(
        parse_processing("mov r1,r2, lsl #2").expect("mov shifted").1,
        processing(
            ProcessingOpcode::Mov,
            false,
            0,
            1,
            Operand2::ShiftedReg(2, Shift::ConstantShift(ShiftType::Lsl, 2))
        )
    );
    assert_eq!(
        parse_processing("add r1,r2,r13"),
        Err(Error::BadRegister)
    );
    assert_eq!(
        parse_processing("mov r1,#0x101"),
        Err(Error::OperandOutOfRange)
    );
    assert_eq!(parse_processing("andeq r0,r0,r0"), Err(Error::BadSyntax));
    assert_eq!(parse_processing("nop r0"), Err(Error::BadSyntax));
}

#[test]
fn lsl_is_a_move() {
    assert_eq!(
        parse_lsl("lsl r3, #4").expect("lsl").1,
        processing(
            ProcessingOpcode::Mov,
            false,
            0,
            3,
            Operand2::ShiftedReg(3, Shift::ConstantShift(ShiftType::Lsl, 4))
        )
    );
    assert_eq!(
        parse_lsl("lsl r3,#4").expect("lsl").1,
        parse_processing("mov r3,r3, lsl #4").expect("mov").1
    );
    assert_eq!(parse_lsl("lsl r3,#32"), Err(Error::OperandOutOfRange));
    assert_eq!(parse_lsl("lsl r3,r4"), Err(Error::BadSyntax));
}

#[test]
fn multiply_forms() {
    assert_eq!(parse_multiply("mla r3,r1,r2"), Err(Error::BadSyntax));
    assert_eq!(parse_multiply("mul r3,r1"), Err(Error::BadSyntax));
    assert_eq!(parse_multiply("mul r3,r1,r14"), Err(Error::BadRegister));
    let table = SymbolTable::new();
    assert_eq!(
        parse_asm("mul r3,r1,r2,r4", 0, 4, &table),
        Err(Error::BadSyntax)
    );
}

#[test]
fn transfer_forms() {
    assert_eq!(
        parse_transfer("ldr r1,[r2]", 0, 8).expect("no offset").1,
        transfer(true, true, true, 2, 1, Operand2::ConstantShift(0, 0))
    );
    assert_eq!(
        parse_transfer("str r1,[r2]", 0, 8).expect("store").1,
        transfer(true, true, false, 2, 1, Operand2::ConstantShift(0, 0))
    );
    assert_eq!(
        parse_transfer("ldr r1,[r2, #4]", 0, 8).expect("pre-indexed").1,
        transfer(true, true, true, 2, 1, Operand2::ConstantShift(4, 0))
    );
    assert_eq!(
        parse_transfer("ldr r1,[r2,#-4]", 0, 8).expect("down").1,
        transfer(true, false, true, 2, 1, Operand2::ConstantShift(4, 0))
    );
    assert_eq!(
        parse_transfer("str r1,[r2], #8", 0, 8).expect("post-indexed").1,
        transfer(false, true, false, 2, 1, Operand2::ConstantShift(8, 0))
    );
    assert_eq!(
        parse_transfer("ldr r6,[r9, r3, lsl #2]", 0, 8)
            .expect("register offset")
            .1,
        transfer(
            true,
            true,
            true,
            9,
            6,
            Operand2::ShiftedReg(3, Shift::ConstantShift(ShiftType::Lsl, 2))
        )
    );
    assert_eq!(parse_transfer("ldr r1,[r2, #4", 0, 8), Err(Error::BadSyntax));
    assert_eq!(parse_transfer("str r1,=0x100", 0, 8), Err(Error::BadSyntax));
    assert_eq!(parse_transfer("ldr r1,r2", 0, 8), Err(Error::BadSyntax));
    assert_eq!(
        parse_transfer("ldr r1,[r13]", 0, 8),
        Err(Error::BadRegister)
    );
}

#[test]
fn literal_loads() {
    assert_eq!(
        parse_transfer("ldr r1,=0xff", 0, 8).expect("small").1,
        processing(
            ProcessingOpcode::Mov,
            false,
            0,
            1,
            Operand2::ConstantShift(0xff, 0)
        )
    );
    // The pool lies 16 bytes past the program counter.
    let (instr, data) = parse_transfer("ldr r1,=256", 4, 28).expect("large").1;
    assert_eq!(data, Some(256));
    assert_eq!(
        instr.instruction,
        Instruction::Transfer(InstructionTransfer {
            is_preindexed: true,
            up_bit: true,
            load: true,
            rn: 15,
            rd: 1,
            offset: Operand2::ConstantShift(16, 0),
        })
    );
    // The pool lies behind the program counter.
    let (instr, data) = parse_transfer("ldr r1,=0x12345678", 0, 4).expect("behind").1;
    assert_eq!(data, Some(0x12345678));
    assert_eq!(
        instr.instruction,
        Instruction::Transfer(InstructionTransfer {
            is_preindexed: true,
            up_bit: false,
            load: true,
            rn: 15,
            rd: 1,
            offset: Operand2::ConstantShift(4, 0),
        })
    );
    assert_eq!(
        parse_transfer("ldr r1,=-0x100", 0, 8),
        Err(Error::OperandOutOfRange)
    );
    // A distance of 257 bytes is no immediate.
    assert_eq!(
        parse_transfer("ldr r1,=0x100", 0, 265),
        Err(Error::OperandOutOfRange)
    );
}

#[test]
fn branch_targets() {
    let mut table = SymbolTable::new();
    table.insert("loop", 4);
    table.insert("end", 0x40);
    table.insert("loop", 8);
    assert_eq!(table.get("loop"), Some(8));
    assert_eq!(table.get("end"), Some(0x40));
    assert_eq!(table.get("start"), None);

    let offset = |line: &str, at: usize| match parse_branch(line, at, &table) {
        Ok((_, (instr, None))) => match instr.instruction {
            Instruction::Branch(b) => Ok((instr.cond, b.offset)),
            other => panic!("{:?}", other),
        },
        Ok(other) => panic!("{:?}", other),
        Err(e) => Err(e),
    };
    assert_eq!(offset("b loop", 0x10), Ok((ConditionCode::Al, -4)));
    assert_eq!(offset("blt end", 0x10), Ok((ConditionCode::Lt, 10)));
    assert_eq!(offset("b 32", 0), Ok((ConditionCode::Al, 6)));
    assert_eq!(offset("bgt 0", 0), Ok((ConditionCode::Gt, -2)));
    assert_eq!(offset("b nowhere", 0), Err(Error::UnknownLabel));
    assert_eq!(offset("b", 0), Err(Error::BadSyntax));
    assert_eq!(offset("b -4", 0), Err(Error::BadSyntax));
    assert_eq!(offset("bx loop", 0), Err(Error::BadSyntax));
}

#[test]
fn whole_lines() {
    let table = SymbolTable::new();
    assert_eq!(
        parse_asm("mov r1,#0x1", 0, 8, &table),
        Ok(processing(
            ProcessingOpcode::Mov,
            false,
            0,
            1,
            Operand2::ConstantShift(1, 0)
        ))
    );
    assert_eq!(
        parse_asm("  mov r1,#0x1 \t", 0, 8, &table),
        parse_asm("mov r1,#0x1", 0, 8, &table)
    );
    assert_eq!(
        parse_asm("mov r1,#0x1 junk", 0, 8, &table),
        Err(Error::BadSyntax)
    );
    assert_eq!(parse_asm("", 0, 8, &table), Err(Error::BadSyntax));
    assert_eq!(parse_asm("andeq r1,r0,r0", 0, 8, &table), Err(Error::BadSyntax));
    assert_eq!(
        parse_asm("andeq r0, r0, r0", 0, 8, &table),
        Ok((
            ConditionalInstruction {
                cond: ConditionCode::Eq,
                instruction: Instruction::Halt
            },
            None
        ))
    );
    assert_eq!(
        parse_asm("mov r17,#1", 0, 8, &table),
        Err(Error::BadRegister)
    );
}
