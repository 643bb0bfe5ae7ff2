//! What each instruction does to the machine.

use vstd::prelude::*;
use crate::alu::{
    alu_spec, barrel_shifter, barrel_shifter_spec, perform_processing_operation, wrap32,
};
use crate::constants::{CPSR, PC};
use crate::gpio::{gpio_accessed, is_gpio_address};
use crate::state::{
    in_memory, le_word, store_word, with_flag, EmulatorState, Machine, Pipeline,
};
use crate::types::{
    ConditionCode, ConditionalInstruction, CpsrFlag, Error, Instruction, InstructionBranch,
    InstructionMultiply, InstructionProcessing, InstructionTransfer, ProcessingOpcode,
};
use crate::utils::{bit_is_set, extract_bit};

verus! {

/// What a transfer outside memory is reported as.
#[derive(Clone, Copy, Debug, PartialEq, Eq, Structural)]
pub enum Notice {
    /// The GPIO word at this address was accessed.
    Gpio(u32),
    /// The access at this address was out of bounds and had no effect.
    OutOfBoundsMemory(u32),
}

/// When a condition holds, given the four flags.
pub open spec fn condition_holds(cond: ConditionCode, n: bool, z: bool, c: bool, v: bool) -> bool {
    match cond {
        ConditionCode::Eq => z,
        ConditionCode::Ne => !z,
        ConditionCode::Ge => n == v,
        ConditionCode::Lt => n != v,
        ConditionCode::Gt => !z && n == v,
        ConditionCode::Le => z || n != v,
        ConditionCode::Al => true,
    }
}

/// When a condition holds, given the status register: N is bit 31, Z bit 30,
/// C bit 29 and V bit 28.
pub open spec fn satisfies_cpsr_spec(cond: ConditionCode, cpsr: u32) -> bool {
    condition_holds(
        cond,
        bit_is_set(cpsr, 31),
        bit_is_set(cpsr, 30),
        bit_is_set(cpsr, 29),
        bit_is_set(cpsr, 28),
    )
}

/// The status register after an operation with the given result and carry:
/// C is the carry, N is bit 31 of the result, Z says that the result is zero,
/// and V stays.
pub open spec fn flags_after(cpsr: u32, result: u32, carry: bool) -> u32 {
    with_flag(with_flag(with_flag(cpsr, 29, carry), 31, bit_is_set(result, 31)), 30, result == 0)
}

/// The status register after a multiplication: N and Z follow the result, C
/// and V stay.
pub open spec fn flags_after_multiply(cpsr: u32, result: u32) -> u32 {
    with_flag(with_flag(cpsr, 31, bit_is_set(result, 31)), 30, result == 0)
}

/// The machine after a data-processing instruction.
///
/// The first operand is Rn, the second comes from the barrel shifter. The
/// result goes to Rd unless the opcode is Tst, Teq or Cmp. With S set the
/// flags are updated, the carry taken from the arithmetic unit for Sub, Rsb,
/// Add and Cmp and from the shifter for the others.
pub open spec fn execute_processing_spec(m: Machine, p: InstructionProcessing) -> Machine {
    let op1 = m.regs[p.rn as int];
    let (op2, shifter_carry) = barrel_shifter_spec(p.operand2, m.regs);
    let (result, alu_carry) = alu_spec(op1, op2, p.opcode);
    let written = if p.opcode.discards_result() {
        m.regs
    } else {
        m.regs.update(p.rd as int, result)
    };
    let carry = if p.opcode.is_arithmetic() {
        alu_carry
    } else {
        shifter_carry
    };
    let flagged = if p.set_cond {
        written.update(CPSR as int, flags_after(written[CPSR as int], result, carry))
    } else {
        written
    };
    Machine { regs: flagged, ..m }
}

/// The product of Rm and Rs, plus Rn where the instruction accumulates, in 32 bits.
pub open spec fn multiply_result(m: Machine, i: InstructionMultiply) -> u32 {
    let product = wrap32(m.regs[i.rm as int] * m.regs[i.rs as int]);
    if i.accumulate {
        wrap32(product + m.regs[i.rn as int])
    } else {
        product
    }
}

/// The machine after a multiply instruction: the result is in Rd, and with S
/// set N and Z follow it.
pub open spec fn execute_multiply_spec(m: Machine, i: InstructionMultiply) -> Machine {
    let result = multiply_result(m, i);
    let written = m.regs.update(i.rd as int, result);
    let flagged = if i.set_cond {
        written.update(CPSR as int, flags_after_multiply(written[CPSR as int], result))
    } else {
        written
    };
    Machine { regs: flagged, ..m }
}

/// The base register moved by the offset, up or down.
pub open spec fn transfer_moved(m: Machine, t: InstructionTransfer) -> u32 {
    let offset = barrel_shifter_spec(t.offset, m.regs).0;
    let base = m.regs[t.rn as int];
    if t.up_bit {
        wrap32(base + offset)
    } else {
        wrap32(base - offset)
    }
}

/// The address that a transfer accesses: the moved base if it indexes before
/// the access, the base itself if after.
pub open spec fn transfer_address(m: Machine, t: InstructionTransfer) -> u32 {
    if t.is_preindexed {
        transfer_moved(m, t)
    } else {
        m.regs[t.rn as int]
    }
}

/// What a transfer is reported as: nothing inside memory, the GPIO word if it
/// is one, an access out of bounds for any other address.
pub open spec fn transfer_notice(m: Machine, t: InstructionTransfer) -> Option<Notice> {
    let address = transfer_address(m, t);
    if in_memory(address as int) {
        None
    } else if is_gpio_address(address as int) {
        Some(Notice::Gpio(address))
    } else {
        Some(Notice::OutOfBoundsMemory(address))
    }
}

/// The machine after a transfer.
///
/// Inside memory a load puts the word at the address in Rd and a store puts
/// Rd at the address. A load from a GPIO word puts the address in Rd; a
/// store to one, and any access elsewhere, changes nothing. After that a
/// transfer that indexes after the access puts the moved base in Rn.
pub open spec fn execute_transfer_spec(m: Machine, t: InstructionTransfer) -> Machine {
    let address = transfer_address(m, t);
    let accessed = if in_memory(address as int) {
        if t.load {
            Machine { regs: m.regs.update(t.rd as int, le_word(m.memory, address as int)), ..m }
        } else {
            Machine { memory: store_word(m.memory, address as int, m.regs[t.rd as int]), ..m }
        }
    } else if is_gpio_address(address as int) && t.load {
        Machine { regs: m.regs.update(t.rd as int, address), ..m }
    } else {
        m
    };
    if t.is_preindexed {
        accessed
    } else {
        Machine { regs: accessed.regs.update(t.rn as int, transfer_moved(m, t)), ..accessed }
    }
}

/// The machine after a branch: the program counter has moved by four times
/// the offset, and the pipeline is empty.
pub open spec fn execute_branch_spec(m: Machine, b: InstructionBranch) -> Machine {
    Machine {
        regs: m.regs.update(PC as int, wrap32(m.regs[PC as int] + 4 * b.offset)),
        pipeline: Pipeline { fetched: None, decoded: None },
        ..m
    }
}

/// The machine after an instruction. Where the condition does not hold, and
/// for Halt, it is the machine before.
pub open spec fn execute_spec(m: Machine, instr: ConditionalInstruction) -> Machine {
    if !satisfies_cpsr_spec(instr.cond, m.regs[CPSR as int]) {
        m
    } else {
        match instr.instruction {
            Instruction::Processing(p) => execute_processing_spec(m, p),
            Instruction::Multiply(i) => execute_multiply_spec(m, i),
            Instruction::Transfer(t) => execute_transfer_spec(m, t),
            Instruction::Branch(b) => execute_branch_spec(m, b),
            Instruction::Halt => m,
        }
    }
}

/// What executing an instruction is reported as: only a transfer whose
/// condition holds can have a notice.
pub open spec fn execute_notice(m: Machine, instr: ConditionalInstruction) -> Option<Notice> {
    if !satisfies_cpsr_spec(instr.cond, m.regs[CPSR as int]) {
        None
    } else {
        match instr.instruction {
            Instruction::Transfer(t) => transfer_notice(m, t),
            _ => None,
        }
    }
}

impl ConditionalInstruction {
    /// Whether the condition of the instruction holds under the status
    /// register `cpsr_contents`.
    pub fn satisfies_cpsr(&self, cpsr_contents: &u32) -> (holds: bool)
        ensures
            holds == satisfies_cpsr_spec(self.cond, *cpsr_contents),
    {
        let n: bool = extract_bit(cpsr_contents, 31);
        let z: bool = extract_bit(cpsr_contents, 30);
        let v: bool = extract_bit(cpsr_contents, 28);
        match self.cond {
            ConditionCode::Eq => z,
            ConditionCode::Ne => !z,
            ConditionCode::Ge => n == v,
            ConditionCode::Lt => n != v,
            ConditionCode::Gt => !z && (n == v),
            ConditionCode::Le => z || (n != v),
            ConditionCode::Al => true,
        }
    }
}

/// The status register that holds exactly the given flags.
pub open spec fn flags_word(n: bool, z: bool, c: bool, v: bool) -> u32 {
    (if n { 0x8000_0000u32 } else { 0u32 }) | (if z { 0x4000_0000u32 } else { 0u32 }) | (if c {
        0x2000_0000u32
    } else {
        0u32
    }) | (if v { 0x1000_0000u32 } else { 0u32 })
}

proof fn lemma_flags_word(n: bool, z: bool, c: bool, v: bool)
    by (bit_vector)
    ensures
        bit_is_set(flags_word(n, z, c, v), 31) == n,
        bit_is_set(flags_word(n, z, c, v), 30) == z,
        bit_is_set(flags_word(n, z, c, v), 29) == c,
        bit_is_set(flags_word(n, z, c, v), 28) == v,
{
}

/// For each of the sixteen settings of the flags and each condition, the
/// evaluator on a status register with those flags gives what the table of
/// conditions says.
pub proof fn lemma_condition_table(cond: ConditionCode, n: bool, z: bool, c: bool, v: bool)
    ensures
        satisfies_cpsr_spec(cond, flags_word(n, z, c, v)) == condition_holds(cond, n, z, c, v),
{
    lemma_flags_word(n, z, c, v);
}

/// A word read as two's complement and back is the same word.
proof fn lemma_signed_reading(x: u32)
    by (bit_vector)
    ensures
        (x as i32) as u32 == x,
{
}

/// Executes an instruction on the machine and says what is to be reported.
pub fn execute(state: &mut EmulatorState, instr: ConditionalInstruction) -> (notice: Option<Notice>)
    requires
        instr.wf(),
        !(instr.instruction is Halt),
    ensures
        final(state)@ == execute_spec(old(state)@, instr),
        notice == execute_notice(old(state)@, instr),
{
    if !instr.satisfies_cpsr(state.read_reg(CPSR)) {
        return None;
    }
    match instr.instruction {
        Instruction::Processing(processing) => {
            execute_processing(state, processing);
            None
        },
        Instruction::Multiply(multiply) => {
            execute_multiply(state, multiply);
            None
        },
        Instruction::Transfer(transfer) => execute_transfer(state, transfer),
        Instruction::Branch(branch) => {
            execute_branch(state, branch);
            None
        },
        Instruction::Halt => None,
    }
}

/// Executes a data-processing instruction.
pub fn execute_processing(state: &mut EmulatorState, instr: InstructionProcessing)
    requires
        instr.wf(),
    ensures
        final(state)@ == execute_processing_spec(old(state)@, instr),
{
    let op1: u32 = *state.read_reg(instr.rn as usize);
    let (op2, bs_carry_out) = barrel_shifter(instr.operand2, state.regs());
    let (signed_result, carry_out) = perform_processing_operation(
        op1 as i32,
        op2 as i32,
        instr.opcode,
    );
    let result: u32 = signed_result as u32;
    proof {
        lemma_signed_reading(op1);
        lemma_signed_reading(op2);
        lemma_signed_reading(alu_spec(op1, op2, instr.opcode).0);
    }
    match instr.opcode {
        ProcessingOpcode::Cmp | ProcessingOpcode::Teq | ProcessingOpcode::Tst => (),
        _ => {
            state.write_reg(instr.rd as usize, result);
        },
    }
    if instr.set_cond {
        let c_flag = match instr.opcode {
            ProcessingOpcode::Sub
            | ProcessingOpcode::Rsb
            | ProcessingOpcode::Add
            | ProcessingOpcode::Cmp => carry_out,
            _ => bs_carry_out,
        };
        state.set_flags(CpsrFlag::C, c_flag);
        state.set_flags(CpsrFlag::N, extract_bit(&result, 31));
        state.set_flags(CpsrFlag::Z, result == 0);
    }
    assert(state@.regs =~= execute_processing_spec(old(state)@, instr).regs);
}

/// Executes a multiply instruction.
pub fn execute_multiply(state: &mut EmulatorState, instr: InstructionMultiply)
    requires
        instr.wf(),
    ensures
        final(state)@ == execute_multiply_spec(old(state)@, instr),
{
    let mut result: u32 = state.read_reg(instr.rm as usize).wrapping_mul(
        *state.read_reg(instr.rs as usize),
    );
    if instr.accumulate {
        result = result.wrapping_add(*state.read_reg(instr.rn as usize));
    }
    assert(result == multiply_result(old(state)@, instr));
    state.write_reg(instr.rd as usize, result);
    if instr.set_cond {
        state.set_flags(CpsrFlag::N, extract_bit(&result, 31));
        state.set_flags(CpsrFlag::Z, result == 0);
    }
    assert(state@.regs =~= execute_multiply_spec(old(state)@, instr).regs);
}

/// Executes a transfer and says what is to be reported of it.
pub fn execute_transfer(state: &mut EmulatorState, instr: InstructionTransfer) -> (notice: Option<
    Notice,
>)
    requires
        instr.wf(),
    ensures
        final(state)@ == execute_transfer_spec(old(state)@, instr),
        notice == transfer_notice(old(state)@, instr),
{
    let offset: u32 = barrel_shifter(instr.offset, state.regs()).0;
    let base: u32 = *state.read_reg(instr.rn as usize);
    let moved: u32 = if instr.up_bit {
        base.wrapping_add(offset)
    } else {
        base.wrapping_sub(offset)
    };
    assert(moved == transfer_moved(old(state)@, instr));
    let address: u32 = if instr.is_preindexed {
        moved
    } else {
        base
    };
    let mem_address: usize = address as usize;
    let mut notice: Option<Notice> = None;
    let accessed: Result<(), Error> = if instr.load {
        match state.read_memory(mem_address) {
            Ok(word) => {
                state.write_reg(instr.rd as usize, word);
                Ok(())
            },
            Err(e) => Err(e),
        }
    } else {
        let word: u32 = *state.read_reg(instr.rd as usize);
        state.write_memory(mem_address, word)
    };
    if accessed.is_err() {
        if gpio_accessed(mem_address) {
            notice = Some(Notice::Gpio(address));
            if instr.load {
                state.write_reg(instr.rd as usize, address);
            }
        } else {
            notice = Some(Notice::OutOfBoundsMemory(address));
        }
    }
    if !instr.is_preindexed {
        state.write_reg(instr.rn as usize, moved);
    }
    assert(state@.regs =~= execute_transfer_spec(old(state)@, instr).regs);
    assert(state@.memory =~= execute_transfer_spec(old(state)@, instr).memory);
    notice
}

/// Executes a branch: moves the program counter and empties the pipeline.
pub fn execute_branch(state: &mut EmulatorState, instr: InstructionBranch)
    requires
        instr.wf(),
    ensures
        final(state)@ == execute_branch_spec(old(state)@, instr),
{
    let pc: u32 = *state.read_reg(PC);
    let target: u32 = pc.wrapping_add_signed(instr.offset * 4);
    state.write_reg(PC, target);
    state.pipeline.flush();
}

} // verus!
