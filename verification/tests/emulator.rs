use arm11::alu::{barrel_shifter, perform_processing_operation, rotate_right, shift};
use arm11::constants::{mask, InstructionField, CPSR, MEMORY_SIZE, PC};
use arm11::decode::decode_operand2_immediate;
use arm11::encode::encode_operand2;
use arm11::execute::{execute, Notice};
use arm11::gpio::{gpio_accessed, gpio_message};
use arm11::immediate::expression_to_operand2;
use arm11::pipeline::{fetch, step};
use arm11::state::{EmulatorState, Pipeline};
use arm11::types::{
    ConditionCode, ConditionalInstruction, CpsrFlag, Error, Instruction, InstructionBranch,
    InstructionMultiply, InstructionProcessing, InstructionTransfer, Operand2, ProcessingOpcode,
    Shift, ShiftType,
};
use arm11::utils::{extract_bit, signed_24_to_32};

#[test]
fn bits_and_masks() {
    assert!(extract_bit(&0x8000_0000, 31));
    assert!(!extract_bit(&0x8000_0000, 30));
    assert!(extract_bit(&1, 0));
    assert_eq!(mask(0), 0);
    assert_eq!(mask(8), 0xff);
    assert_eq!(mask(24), 0xff_ffff);
    assert_eq!(mask(31), 0x7fff_ffff);
    assert_eq!(InstructionField::new(4, 28), InstructionField { size: 4, pos: 28 });
    assert_eq!(InstructionField::bit(25), InstructionField { size: 1, pos: 25 });
}

#[test]
fn sign_extension() {
    assert_eq!(signed_24_to_32(0x121), 0x121);
    assert_eq!(signed_24_to_32(0xff_fffc), -4);
    assert_eq!(signed_24_to_32(0x80_0000), -0x80_0000);
    assert_eq!(signed_24_to_32(0x7f_ffff), 0x7f_ffff);
    assert_eq!(signed_24_to_32(0), 0);
}

#[test]
fn shift_by_nothing() {
    for t in [ShiftType::Lsl, ShiftType::Lsr, ShiftType::Asr, ShiftType::Ror] {
        assert_eq!(shift(0x8000_0001, 0, t), (0x8000_0001, false));
    }
}

#[test]
fn shift_left() {
    assert_eq!(shift(0x8000_0001, 1, ShiftType::Lsl), (2, true));
    assert_eq!(shift(0x4000_0001, 1, ShiftType::Lsl), (0x8000_0002, false));
    assert_eq!(shift(1, 31, ShiftType::Lsl), (0x8000_0000, false));
    assert_eq!(shift(3, 31, ShiftType::Lsl), (0x8000_0000, true));
    assert_eq!(shift(1, 32, ShiftType::Lsl), (0, true));
    assert_eq!(shift(2, 32, ShiftType::Lsl), (0, false));
    assert_eq!(shift(0xffff_ffff, 33, ShiftType::Lsl), (0, false));
    assert_eq!(shift(0xffff_ffff, 255, ShiftType::Lsl), (0, false));
}

#[test]
fn shift_right() {
    assert_eq!(shift(0x8000_0001, 1, ShiftType::Lsr), (0x4000_0000, true));
    assert_eq!(shift(0x8000_0002, 1, ShiftType::Lsr), (0x4000_0001, false));
    assert_eq!(shift(0x8000_0000, 31, ShiftType::Lsr), (1, false));
    assert_eq!(shift(0x8000_0000, 32, ShiftType::Lsr), (0, true));
    assert_eq!(shift(0x7fff_ffff, 32, ShiftType::Lsr), (0, false));
    assert_eq!(shift(0xffff_ffff, 33, ShiftType::Lsr), (0, false));
}

#[test]
fn shift_right_keeping_the_sign() {
    assert_eq!(shift(0x8000_0001, 1, ShiftType::Asr), (0xc000_0000, true));
    assert_eq!(shift(0x4000_0002, 1, ShiftType::Asr), (0x2000_0001, false));
    assert_eq!(shift(0x8000_0000, 31, ShiftType::Asr), (0xffff_ffff, false));
    assert_eq!(shift(0x8000_0000, 32, ShiftType::Asr), (0xffff_ffff, true));
    assert_eq!(shift(0x8000_0000, 200, ShiftType::Asr), (0xffff_ffff, true));
    assert_eq!(shift(0x7fff_ffff, 32, ShiftType::Asr), (0, false));
    assert_eq!(shift(0xffff_fff0, 4, ShiftType::Asr), (0xffff_ffff, false));
}

#[test]
fn rotate() {
    assert_eq!(shift(0x0000_00ff, 4, ShiftType::Ror), (0xf000_000f, true));
    assert_eq!(shift(0x0000_00f0, 4, ShiftType::Ror), (0x0000_000f, false));
    assert_eq!(shift(0x8000_0001, 32, ShiftType::Ror), (0x8000_0001, true));
    assert_eq!(shift(0x0000_0001, 33, ShiftType::Ror), (0x8000_0000, true));
    for n in 0..70u32 {
        assert_eq!(rotate_right(0x1234_5678, n), 0x1234_5678u32.rotate_right(n));
    }
}

#[test]
fn barrel_shifter_on_each_shape() {
    let mut regs = [0u32; 17];
    regs[2] = 0x0000_00f1;
    regs[3] = 0x0000_0104;
    assert_eq!(
        barrel_shifter(Operand2::ConstantShift(0xff, 4), &regs),
        (0xff00_0000, true)
    );
    assert_eq!(
        barrel_shifter(Operand2::ConstantShift(0x3f, 6), &regs),
        (0x03f0_0000, false)
    );
    assert_eq!(
        barrel_shifter(Operand2::ConstantShift(0x2a, 0), &regs),
        (0x2a, false)
    );
    assert_eq!(
        barrel_shifter(
            Operand2::ShiftedReg(2, Shift::ConstantShift(ShiftType::Lsr, 1)),
            &regs
        ),
        (0x78, true)
    );
    // Only the low byte of the shift register counts: 4 places.
    assert_eq!(
        barrel_shifter(
            Operand2::ShiftedReg(2, Shift::RegisterShift(ShiftType::Lsl, 3)),
            &regs
        ),
        (0xf10, false)
    );
}

#[test]
fn immediates_survive_encoding() {
    let regs = [0x5a5a_5a5au32; 17];
    for rotate in 0..16u8 {
        for value in [0u8, 1, 0x2a, 0x80, 0xff] {
            let operand = Operand2::ConstantShift(value, rotate);
            let decoded = decode_operand2_immediate(encode_operand2(operand));
            assert_eq!(decoded, operand);
            assert_eq!(
                barrel_shifter(decoded, &regs).0,
                u32::from(value).rotate_right(2 * u32::from(rotate))
            );
        }
    }
    for word in [0u32, 0xff, 0x3f00000, 0xc000003f, 0xff000000, 0x104] {
        let operand = expression_to_operand2(word).expect("representable");
        let decoded = decode_operand2_immediate(encode_operand2(operand));
        assert_eq!(barrel_shifter(decoded, &regs).0, word);
    }
}

#[test]
fn arithmetic_logic_unit() {
    assert_eq!(
        perform_processing_operation(0b1100, 0b1010, ProcessingOpcode::And),
        (0b1000, false)
    );
    assert_eq!(
        perform_processing_operation(0b1100, 0b1010, ProcessingOpcode::Tst),
        (0b1000, false)
    );
    assert_eq!(
        perform_processing_operation(0b1100, 0b1010, ProcessingOpcode::Eor),
        (0b0110, false)
    );
    assert_eq!(
        perform_processing_operation(0b1100, 0b1010, ProcessingOpcode::Teq),
        (0b0110, false)
    );
    assert_eq!(
        perform_processing_operation(0b1100, 0b1010, ProcessingOpcode::Orr),
        (0b1110, false)
    );
    assert_eq!(perform_processing_operation(7, 9, ProcessingOpcode::Mov), (9, false));
    assert_eq!(perform_processing_operation(5, 3, ProcessingOpcode::Sub), (2, true));
    assert_eq!(perform_processing_operation(3, 5, ProcessingOpcode::Sub), (-2, false));
    assert_eq!(perform_processing_operation(3, 3, ProcessingOpcode::Sub), (0, true));
    assert_eq!(perform_processing_operation(3, 5, ProcessingOpcode::Rsb), (2, true));
    assert_eq!(perform_processing_operation(5, 3, ProcessingOpcode::Rsb), (-2, false));
    assert_eq!(perform_processing_operation(5, 3, ProcessingOpcode::Cmp), (2, true));
    assert_eq!(perform_processing_operation(3, 5, ProcessingOpcode::Cmp), (-2, false));
    assert_eq!(perform_processing_operation(2, 3, ProcessingOpcode::Add), (5, false));
    assert_eq!(perform_processing_operation(-1, 1, ProcessingOpcode::Add), (0, true));
    assert_eq!(
        perform_processing_operation(i32::MAX, 1, ProcessingOpcode::Add),
        (i32::MIN, false)
    );
    // Read as words, -1 is the largest: nothing is borrowed from it.
    assert_eq!(perform_processing_operation(-1, 1, ProcessingOpcode::Sub), (-2, true));
}

#[test]
fn conditions_on_every_setting_of_the_flags() {
    let conds = [
        ConditionCode::Eq,
        ConditionCode::Ne,
        ConditionCode::Ge,
        ConditionCode::Lt,
        ConditionCode::Gt,
        ConditionCode::Le,
        ConditionCode::Al,
    ];
    for flags in 0..16u32 {
        let n = flags & 8 != 0;
        let z = flags & 4 != 0;
        let v = flags & 1 != 0;
        let cpsr = flags << 28;
        for cond in conds {
            let instr = ConditionalInstruction { instruction: Instruction::Halt, cond };
            let expected = match cond {
                ConditionCode::Eq => z,
                ConditionCode::Ne => !z,
                ConditionCode::Ge => n == v,
                ConditionCode::Lt => n != v,
                ConditionCode::Gt => !z && n == v,
                ConditionCode::Le => z || n != v,
                ConditionCode::Al => true,
            };
            assert_eq!(instr.satisfies_cpsr(&cpsr), expected);
            // Bits below the flags do not count.
            assert_eq!(instr.satisfies_cpsr(&(cpsr | 0x0fff_ffff)), expected);
        }
    }
}

#[test]
fn fresh_machine() {
    let state = EmulatorState::new();
    assert_eq!(state.regs(), &[0u32; 17]);
    assert!(state.nonzero_memory().is_empty());
    assert_eq!(state.pipeline, Pipeline { fetched: None, decoded: None });
    assert_eq!(Pipeline::default(), Pipeline::new());
    let state = EmulatorState::default();
    assert_eq!(state.read_memory(0), Ok(0));
}

#[test]
fn memory_from_an_image() {
    let state = EmulatorState::with_memory(vec![1, 2, 3, 4, 5]);
    assert_eq!(state.read_memory(0), Ok(0x04030201));
    assert_eq!(state.read_memory(1), Ok(0x05040302));
    assert_eq!(state.read_memory(4), Ok(5));
    assert_eq!(state.nonzero_memory(), vec![(0, 0x01020304), (4, 0x05000000)]);
    let long = EmulatorState::with_memory(vec![0xab; MEMORY_SIZE + 10]);
    assert_eq!(long.read_memory(MEMORY_SIZE - 4), Ok(0xabababab));
    assert_eq!(long.nonzero_memory().len(), MEMORY_SIZE / 4);
}

#[test]
fn memory_bounds() {
    let mut state = EmulatorState::new();
    assert_eq!(state.write_memory(MEMORY_SIZE - 4, 0x11223344), Ok(()));
    assert_eq!(
        state.write_memory(MEMORY_SIZE - 3, 0x55667788),
        Err(Error::OutOfBoundsMemory)
    );
    assert_eq!(state.read_memory(MEMORY_SIZE - 4), Ok(0x11223344));
    assert_eq!(
        state.read_memory(MEMORY_SIZE - 3),
        Err(Error::OutOfBoundsMemory)
    );
    assert_eq!(state.read_memory(MEMORY_SIZE), Err(Error::OutOfBoundsMemory));
    assert_eq!(state.read_memory(usize::MAX), Err(Error::OutOfBoundsMemory));
    assert_eq!(state.write_memory(3, 0xa1b2c3d4), Ok(()));
    assert_eq!(state.read_memory(3), Ok(0xa1b2c3d4));
    assert_eq!(state.read_memory(0), Ok(0xd4000000));
    assert_eq!(state.read_memory(4), Ok(0x00a1b2c3));
}

#[test]
fn flags_one_by_one() {
    let mut state = EmulatorState::new();
    state.set_flags(CpsrFlag::N, true);
    assert_eq!(*state.read_reg(CPSR), 0x8000_0000);
    state.set_flags(CpsrFlag::Z, true);
    state.set_flags(CpsrFlag::C, true);
    state.set_flags(CpsrFlag::V, true);
    assert_eq!(*state.read_reg(CPSR), 0xf000_0000);
    state.set_flags(CpsrFlag::Z, false);
    assert_eq!(*state.read_reg(CPSR), 0xb000_0000);
    state.set_flags(CpsrFlag::Z, false);
    assert_eq!(*state.read_reg(CPSR), 0xb000_0000);
    state.write_reg(CPSR, 0x0fff_ffff);
    state.set_flags(CpsrFlag::C, true);
    assert_eq!(*state.read_reg(CPSR), 0x2fff_ffff);
}

fn always(instruction: Instruction) -> ConditionalInstruction {
    ConditionalInstruction { instruction, cond: ConditionCode::Al }
}

#[test]
fn processing_sets_flags_only_when_asked() {
    let mut state = EmulatorState::new();
    state.write_reg(1, 5);
    let sub = |set_cond| {
        always(Instruction::Processing(InstructionProcessing {
            opcode: ProcessingOpcode::Sub,
            set_cond,
            rn: 1,
            rd: 2,
            operand2: Operand2::ConstantShift(5, 0),
        }))
    };
    assert_eq!(execute(&mut state, sub(false)), None);
    assert_eq!(*state.read_reg(2), 0);
    assert_eq!(*state.read_reg(CPSR), 0);
    state.write_reg(CPSR, 0x1000_0000);
    assert_eq!(execute(&mut state, sub(true)), None);
    // Z and C are set, N is clear, V stays.
    assert_eq!(*state.read_reg(CPSR), 0x7000_0000);
}

#[test]
fn logical_operations_take_the_carry_of_the_shifter() {
    let mut state = EmulatorState::new();
    state.write_reg(1, 0xffff_ffff);
    let and = always(Instruction::Processing(InstructionProcessing {
        opcode: ProcessingOpcode::And,
        set_cond: true,
        rn: 1,
        rd: 2,
        operand2: Operand2::ConstantShift(0xff, 4),
    }));
    execute(&mut state, and);
    assert_eq!(*state.read_reg(2), 0xff00_0000);
    // N from the result, C from the rotation.
    assert_eq!(*state.read_reg(CPSR), 0xa000_0000);
}

#[test]
fn comparisons_write_no_register() {
    let mut state = EmulatorState::new();
    state.write_reg(1, 1);
    state.write_reg(3, 77);
    let cmp = always(Instruction::Processing(InstructionProcessing {
        opcode: ProcessingOpcode::Cmp,
        set_cond: true,
        rn: 1,
        rd: 3,
        operand2: Operand2::ConstantShift(3, 0),
    }));
    execute(&mut state, cmp);
    assert_eq!(*state.read_reg(3), 77);
    // 1 - 3 borrows and is negative.
    assert_eq!(*state.read_reg(CPSR), 0x8000_0000);
}

#[test]
fn a_condition_that_does_not_hold_leaves_the_machine() {
    let mut state = EmulatorState::new();
    let mov = ConditionalInstruction {
        instruction: Instruction::Processing(InstructionProcessing {
            opcode: ProcessingOpcode::Mov,
            set_cond: false,
            rn: 0,
            rd: 1,
            operand2: Operand2::ConstantShift(9, 0),
        }),
        cond: ConditionCode::Eq,
    };
    assert_eq!(execute(&mut state, mov), None);
    assert_eq!(*state.read_reg(1), 0);
    state.set_flags(CpsrFlag::Z, true);
    assert_eq!(execute(&mut state, mov), None);
    assert_eq!(*state.read_reg(1), 9);
}

#[test]
fn multiplication_wraps() {
    let mut state = EmulatorState::new();
    state.write_reg(1, 0x1_0001);
    state.write_reg(2, 0x1_0000);
    state.write_reg(4, 0xffff_ffff);
    let mul = |accumulate, set_cond| {
        always(Instruction::Multiply(InstructionMultiply {
            accumulate,
            set_cond,
            rd: 3,
            rn: 4,
            rs: 2,
            rm: 1,
        }))
    };
    execute(&mut state, mul(false, false));
    assert_eq!(*state.read_reg(3), 0x0001_0000);
    execute(&mut state, mul(true, true));
    assert_eq!(*state.read_reg(3), 0x0000_ffff);
    assert_eq!(*state.read_reg(CPSR), 0);
    state.write_reg(2, 0);
    state.write_reg(4, 0);
    execute(&mut state, mul(true, true));
    assert_eq!(*state.read_reg(3), 0);
    assert_eq!(*state.read_reg(CPSR), 0x4000_0000);
}

#[test]
fn transfers_index_before_or_after() {
    let mut state = EmulatorState::new();
    assert_eq!(state.write_memory(0x20, 0xdead_beef), Ok(()));
    state.write_reg(1, 0x24);
    let load = |is_preindexed, up_bit| {
        always(Instruction::Transfer(InstructionTransfer {
            is_preindexed,
            up_bit,
            load: true,
            rn: 1,
            rd: 2,
            offset: Operand2::ConstantShift(4, 0),
        }))
    };
    assert_eq!(execute(&mut state, load(true, false)), None);
    assert_eq!(*state.read_reg(2), 0xdead_beef);
    assert_eq!(*state.read_reg(1), 0x24);
    state.write_reg(1, 0x20);
    state.write_reg(2, 0);
    assert_eq!(execute(&mut state, load(false, true)), None);
    assert_eq!(*state.read_reg(2), 0xdead_beef);
    assert_eq!(*state.read_reg(1), 0x24);
    // A word that straddles the end of memory is out of bounds.
    state.write_reg(1, (MEMORY_SIZE - 2) as u32);
    state.write_reg(2, 5);
    let straddling = always(Instruction::Transfer(InstructionTransfer {
        is_preindexed: true,
        up_bit: true,
        load: true,
        rn: 1,
        rd: 2,
        offset: Operand2::ConstantShift(0, 0),
    }));
    assert_eq!(
        execute(&mut state, straddling),
        Some(Notice::OutOfBoundsMemory((MEMORY_SIZE - 2) as u32))
    );
    assert_eq!(*state.read_reg(2), 5);
}

#[test]
fn branches_move_the_counter_and_empty_the_pipeline() {
    let mut state = EmulatorState::new();
    state.write_reg(PC, 0x18);
    state.pipeline.fetched = Some(0xe1a00000);
    let branch = |offset| always(Instruction::Branch(InstructionBranch { offset }));
    state.pipeline.decoded = Some(branch(-4));
    assert_eq!(execute(&mut state, branch(-4)), None);
    assert_eq!(*state.read_reg(PC), 0x8);
    assert_eq!(state.pipeline, Pipeline::new());
    execute(&mut state, branch(3));
    assert_eq!(*state.read_reg(PC), 0x14);
    execute(&mut state, branch(-6));
    assert_eq!(*state.read_reg(PC), 0xffff_fffc);
}

#[test]
fn fetching() {
    let mut state = EmulatorState::with_memory(vec![0x78, 0x56, 0x34, 0x12, 1, 0, 0, 0]);
    assert_eq!(fetch(&mut state), Ok(0x12345678));
    assert_eq!(*state.read_reg(PC), 4);
    assert_eq!(fetch(&mut state), Ok(1));
    assert_eq!(*state.read_reg(PC), 8);
    state.write_reg(PC, (MEMORY_SIZE - 3) as u32);
    assert_eq!(fetch(&mut state), Err(Error::OutOfBoundsMemory));
    assert_eq!(*state.read_reg(PC), (MEMORY_SIZE - 3) as u32);
}

#[test]
fn the_counter_runs_eight_ahead() {
    // mov r1,#1 at address 0.
    let mut state = EmulatorState::with_memory(vec![0x01, 0x10, 0xa0, 0xe3]);
    assert_eq!(step(&mut state), (Ok(false), None));
    assert_eq!(*state.read_reg(PC), 4);
    assert_eq!(state.pipeline.decoded, None);
    assert_eq!(step(&mut state), (Ok(false), None));
    assert_eq!(*state.read_reg(PC), 8);
    match state.pipeline.decoded {
        Some(instr) => assert_eq!(instr.cond, ConditionCode::Al),
        None => panic!("nothing decoded"),
    }
    assert_eq!(*state.read_reg(1), 0);
    assert_eq!(step(&mut state), (Ok(false), None));
    assert_eq!(*state.read_reg(1), 1);
    assert_eq!(*state.read_reg(PC), 12);
    assert_eq!(step(&mut state), (Ok(true), None));
    assert_eq!(*state.read_reg(PC), 12);
}

#[test]
fn gpio_words() {
    let words = [
        (0x2020_0000usize, "One GPIO pin from 0 to 9 has been accessed"),
        (0x2020_0004, "One GPIO pin from 10 to 19 has been accessed"),
        (0x2020_0008, "One GPIO pin from 20 to 29 has been accessed"),
        (0x2020_001c, "PIN ON"),
        (0x2020_0028, "PIN OFF"),
    ];
    for (address, message) in words {
        assert!(gpio_accessed(address));
        assert_eq!(gpio_message(address), message);
    }
    assert!(!gpio_accessed(0x2020_000c));
    assert!(!gpio_accessed(0));
    assert!(!gpio_accessed(0x2020_0001));
}
