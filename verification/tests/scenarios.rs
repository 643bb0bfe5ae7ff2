use arm11::assemble::{assemble, extract_labels_and_instructions};
use arm11::constants::{CPSR, PC};
use arm11::decode::decode;
use arm11::execute::Notice;
use arm11::gpio::gpio_message;
use arm11::pipeline::run_pipeline;
use arm11::state::EmulatorState;
use arm11::types::{ConditionCode, Error, Instruction, Operand2};

fn run(source: &str) -> (EmulatorState, Vec<Notice>) {
    let image = assemble(source).expect("assembles");
    let mut state = EmulatorState::with_memory(image);
    let mut notices = Vec::new();
    assert_eq!(run_pipeline(&mut state, 100_000, &mut notices), Ok(true));
    (state, notices)
}

#[test]
fn immediate_move() {
    let source = "mov r1,#0x1\nandeq r0,r0,r0";
    let image = assemble(source).expect("assembles");
    assert_eq!(image, vec![0x01, 0x10, 0xa0, 0xe3, 0x00, 0x00, 0x00, 0x00]);
    let (state, notices) = run(source);
    assert!(notices.is_empty());
    for index in 0..17 {
        let expected = match index {
            1 => 1,
            // Halt lies at address 4 and is reached with the counter eight past it.
            PC => 12,
            _ => 0,
        };
        assert_eq!(*state.read_reg(index), expected, "register {}", index);
    }
}

#[test]
fn immediate_move_with_spaces_around_lines() {
    let spaced = assemble("mov r1,#0x1 \n andeq r0,r0,r0").expect("assembles");
    assert_eq!(spaced, vec![0x01, 0x10, 0xa0, 0xe3, 0x00, 0x00, 0x00, 0x00]);
    let dos = assemble("mov r1,#0x1\r\n\r\nandeq r0,r0,r0\r\n").expect("assembles");
    assert_eq!(dos, spaced);
}

#[test]
fn add_with_register_operand() {
    let (state, _) = run("mov r1,#2\nmov r2,#3\nadd r3,r1,r2\nandeq r0,r0,r0");
    assert_eq!(*state.read_reg(1), 2);
    assert_eq!(*state.read_reg(2), 3);
    assert_eq!(*state.read_reg(3), 5);
}

#[test]
fn multiply_accumulate() {
    let (state, _) = run("mov r1,#3\nmov r2,#4\nmov r4,#5\nmla r3,r1,r2,r4\nandeq r0,r0,r0");
    assert_eq!(*state.read_reg(3), 17);
}

#[test]
fn literal_pool() {
    let source = "ldr r2,=0x20200020\nandeq r0,r0,r0";
    let image = assemble(source).expect("assembles");
    assert_eq!(image.len(), 12);
    assert_eq!(&image[4..8], &[0, 0, 0, 0]);
    assert_eq!(&image[8..], &[0x20, 0x00, 0x20, 0x20]);
    let word = u32::from_le_bytes([image[0], image[1], image[2], image[3]]);
    let load = decode(&word).expect("decodes");
    match load.instruction {
        Instruction::Transfer(t) => {
            assert_eq!(t.rn, 15);
            assert_eq!(t.rd, 2);
            assert!(t.load);
            assert!(t.is_preindexed);
            assert!(t.up_bit);
            // The pool word lies at address 8, where the counter stands.
            assert_eq!(t.offset, Operand2::ConstantShift(0, 0));
        }
        other => panic!("{:?}", other),
    }
    let (state, notices) = run(source);
    assert_eq!(*state.read_reg(2), 0x20200020);
    assert!(notices.is_empty());
}

#[test]
fn literal_pool_grows_with_each_literal() {
    let source = "ldr r1,=0x12345678\nldr r2,=0x9abcdef0\nadd r3,r1,r2\nandeq r0,r0,r0";
    let image = assemble(source).expect("assembles");
    assert_eq!(image.len(), 24);
    assert_eq!(&image[16..20], &[0x78, 0x56, 0x34, 0x12]);
    assert_eq!(&image[20..24], &[0xf0, 0xde, 0xbc, 0x9a]);
    let (state, _) = run(source);
    assert_eq!(*state.read_reg(1), 0x12345678);
    assert_eq!(*state.read_reg(2), 0x9abcdef0);
    assert_eq!(*state.read_reg(3), 0x12345678u32.wrapping_add(0x9abcdef0));
}

#[test]
fn backward_branch() {
    let source = "mov r1,#0\nloop:\nadd r1,r1,#1\ncmp r1,#3\nblt loop\nandeq r0,r0,r0";
    let image = assemble(source).expect("assembles");
    assert_eq!(image.len(), 20);
    let word = u32::from_le_bytes([image[12], image[13], image[14], image[15]]);
    assert_eq!(word & 0x00ff_ffff, 0x00ff_fffc);
    let branch = decode(&word).expect("decodes");
    assert_eq!(branch.cond, ConditionCode::Lt);
    match branch.instruction {
        Instruction::Branch(b) => assert_eq!(b.offset, -4),
        other => panic!("{:?}", other),
    }
    let (state, _) = run(source);
    assert_eq!(*state.read_reg(1), 3);
    assert_eq!((*state.read_reg(CPSR) >> 30) & 1, 1);
}

#[test]
fn backward_branch_as_the_text_is_laid_out() {
    let source = "mov r1,#0 \nloop: \n add r1,r1,#1 \n cmp r1,#3 \n blt loop \n andeq r0,r0,r0";
    let (state, _) = run(source);
    assert_eq!(*state.read_reg(1), 3);
    assert_eq!((*state.read_reg(CPSR) >> 30) & 1, 1);
}

#[test]
fn gpio_write() {
    let source = "ldr r0,=0x20200000\nmov r1,#1\nstr r1,[r0]\nandeq r0,r0,r0";
    let image = assemble(source).expect("assembles");
    let (state, notices) = run(source);
    assert_eq!(notices, vec![Notice::Gpio(0x20200000)]);
    assert_eq!(
        gpio_message(0x20200000),
        "One GPIO pin from 0 to 9 has been accessed"
    );
    // Memory holds the image and nothing else.
    let dump = state.nonzero_memory();
    for (address, _) in &dump {
        assert!(*address < image.len());
    }
    assert_eq!(*state.read_reg(0), 0x20200000);
    assert_eq!(*state.read_reg(1), 1);
}

#[test]
fn gpio_read_gives_the_address() {
    let source = "ldr r0,=0x2020001c\nldr r1,[r0]\nandeq r0,r0,r0";
    let (state, notices) = run(source);
    assert_eq!(notices, vec![Notice::Gpio(0x2020001c)]);
    assert_eq!(gpio_message(0x2020001c), "PIN ON");
    assert_eq!(*state.read_reg(1), 0x2020001c);
}

#[test]
fn out_of_bounds_access_is_reported_and_the_run_goes_on() {
    let source =
        "ldr r0,=0x30000000\nmov r1,#7\nstr r1,[r0]\nldr r2,[r0]\nmov r3,#1\nandeq r0,r0,r0";
    let (state, notices) = run(source);
    assert_eq!(
        notices,
        vec![
            Notice::OutOfBoundsMemory(0x30000000),
            Notice::OutOfBoundsMemory(0x30000000)
        ]
    );
    assert_eq!(*state.read_reg(2), 0);
    assert_eq!(*state.read_reg(3), 1);
}

#[test]
fn store_and_load_in_memory() {
    let source = [
        "mov r0,#0x100",
        "ldr r1,=0xcafebabe",
        "str r1,[r0]",
        "ldr r2,[r0]",
        "str r1,[r0],#4",
        "ldr r3,[r0,#-4]",
        "andeq r0,r0,r0",
    ]
    .join("\n");
    let source = source.as_str();
    let (state, notices) = run(source);
    assert!(notices.is_empty());
    assert_eq!(*state.read_reg(2), 0xcafebabe);
    assert_eq!(*state.read_reg(0), 0x104);
    assert_eq!(*state.read_reg(3), 0xcafebabe);
    assert_eq!(state.read_memory(0x100), Ok(0xcafebabe));
    let dump = state.nonzero_memory();
    assert!(dump.contains(&(0x100, 0xbebafeca)));
}

#[test]
fn a_loop_without_end_uses_up_its_cycles() {
    let image = assemble("loop:\nb loop").expect("assembles");
    let mut state = EmulatorState::with_memory(image);
    let mut notices = Vec::new();
    assert_eq!(run_pipeline(&mut state, 1000, &mut notices), Ok(false));
    assert_eq!(run_pipeline(&mut state, 0, &mut notices), Ok(false));
}

#[test]
fn more_cycles_change_nothing_after_halt() {
    let image = assemble("mov r1,#5\nandeq r0,r0,r0").expect("assembles");
    let mut short = EmulatorState::with_memory(image.clone());
    let mut long = EmulatorState::with_memory(image);
    let mut notices = Vec::new();
    assert_eq!(run_pipeline(&mut short, 4, &mut notices), Ok(true));
    assert_eq!(run_pipeline(&mut long, 4000, &mut notices), Ok(true));
    assert_eq!(short.regs(), long.regs());
    // Three cycles do not reach Halt.
    let mut shorter = EmulatorState::with_memory(assemble("mov r1,#5\nandeq r0,r0,r0").unwrap());
    assert_eq!(run_pipeline(&mut shorter, 3, &mut notices), Ok(false));
    assert_eq!(run_pipeline(&mut shorter, 1, &mut notices), Ok(true));
}

#[test]
fn a_word_of_bad_shape_stops_the_run() {
    let mut state = EmulatorState::with_memory(vec![0xff, 0xff, 0xff, 0xff]);
    let mut notices = Vec::new();
    assert_eq!(
        run_pipeline(&mut state, 100, &mut notices),
        Err(Error::BadInstructionShape)
    );
}

#[test]
fn running_off_the_end_of_memory_stops_the_run() {
    // `mov r0,r0` all the way: the run fetches past the last word.
    let mut image = Vec::new();
    for _ in 0..16384 {
        image.extend_from_slice(&0xe1a00000u32.to_le_bytes());
    }
    let mut state = EmulatorState::with_memory(image);
    let mut notices = Vec::new();
    assert_eq!(
        run_pipeline(&mut state, 100_000, &mut notices),
        Err(Error::OutOfBoundsMemory)
    );
    assert_eq!(*state.read_reg(PC), 65536);
}

#[test]
fn forward_branch_skips() {
    let source = "b end\nmov r1,#1\nend:\nmov r2,#2\nandeq r0,r0,r0";
    let (state, _) = run(source);
    assert_eq!(*state.read_reg(1), 0);
    assert_eq!(*state.read_reg(2), 2);
}

#[test]
fn first_pass_gathers_labels_and_lines() {
    let (table, lines) =
        extract_labels_and_instructions("start:\n\nmov r1,#1\n  \nloop:\nb loop\nend:")
            .expect("short enough");
    assert_eq!(table.get("start"), Some(0));
    assert_eq!(table.get("loop"), Some(4));
    assert_eq!(table.get("end"), Some(8));
    assert_eq!(table.get("mov"), None);
    let lines: Vec<String> = lines.iter().map(|l| l.iter().collect()).collect();
    assert_eq!(lines, vec!["mov r1,#1".to_string(), "b loop".to_string()]);
}

#[test]
fn assembly_errors() {
    assert_eq!(assemble("b nowhere"), Err(Error::UnknownLabel));
    assert_eq!(assemble("mov r1,#1\nfoo bar"), Err(Error::BadSyntax));
    assert_eq!(assemble("mov r13,#1"), Err(Error::BadRegister));
    assert_eq!(assemble("mov r1,#0x101"), Err(Error::OperandOutOfRange));
    assert_eq!(assemble(""), Ok(vec![]));
    assert_eq!(assemble("\n\n"), Ok(vec![]));
}

#[test]
fn a_label_may_be_used_before_it_is_defined() {
    let image = assemble("b end\nend:\nandeq r0,r0,r0").expect("assembles");
    let word = u32::from_le_bytes([image[0], image[1], image[2], image[3]]);
    // From address 0 to address 4: the counter stands at 8, one word too far.
    assert_eq!(word, 0xeaffffff);
}
