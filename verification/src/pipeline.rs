//! The three-stage pipeline: execute what was decoded, decode what was
//! fetched, fetch the next word.

use vstd::prelude::*;
use crate::constants::{BYTES_IN_WORD, PC, PIPELINE_OFFSET};
use crate::decode::{decode, decode_spec};
use crate::execute::{execute, execute_notice, execute_spec, Notice};
use crate::state::{in_memory, le_word, EmulatorState, Machine, Pipeline};
use crate::types::{ConditionalInstruction, Error, Instruction};

verus! {

/// What one cycle leaves: the machine, what it reports, and whether the run
/// has halted (`Ok(true)`), goes on (`Ok(false)`) or has failed.
pub struct Step {
    pub machine: Machine,
    pub notice: Option<Notice>,
    pub status: Result<bool, Error>,
}

/// What a run leaves: the machine, what it reported in order, and whether it
/// halted (`Ok(true)`), ran out of cycles (`Ok(false)`) or failed.
pub struct Run {
    pub machine: Machine,
    pub notices: Seq<Notice>,
    pub status: Result<bool, Error>,
}

/// The decoded slot holds Halt.
pub open spec fn at_halt(m: Machine) -> bool {
    m.pipeline.decoded matches Some(instr) && instr.instruction is Halt
}

/// What waits in the decoded slot is well formed.
pub open spec fn decoded_wf(m: Machine) -> bool {
    m.pipeline.decoded matches Some(instr) ==> instr.wf()
}

/// The machine after fetching: the word at the program counter is in the
/// fetched slot and the program counter is four further. Fetching outside
/// memory is out of bounds.
pub open spec fn fetch_spec(m: Machine) -> Result<Machine, Error> {
    let pc = m.regs[PC as int];
    if in_memory(pc as int) {
        Ok(
            Machine {
                regs: m.regs.update(PC as int, (pc + BYTES_IN_WORD) as u32),
                pipeline: Pipeline {
                    fetched: Some(le_word(m.memory, pc as int)),
                    decoded: m.pipeline.decoded,
                },
                ..m
            },
        )
    } else {
        Err(Error::OutOfBoundsMemory)
    }
}

/// The machine after executing what the decoded slot holds, if anything.
pub open spec fn execute_stage(m: Machine) -> Machine {
    match m.pipeline.decoded {
        Some(instr) => execute_spec(m, instr),
        None => m,
    }
}

/// What the execute stage reports.
pub open spec fn execute_stage_notice(m: Machine) -> Option<Notice> {
    match m.pipeline.decoded {
        Some(instr) => execute_notice(m, instr),
        None => None,
    }
}

/// The machine after decoding what the fetched slot holds, if anything, into
/// the decoded slot.
pub open spec fn decode_stage(m: Machine) -> Result<Machine, Error> {
    match m.pipeline.fetched {
        Some(word) => match decode_spec(word) {
            Ok(instr) => Ok(
                Machine {
                    pipeline: Pipeline { fetched: m.pipeline.fetched, decoded: Some(instr) },
                    ..m
                },
            ),
            Err(e) => Err(e),
        },
        None => Ok(m),
    }
}

/// One cycle. At Halt nothing changes and the run has halted. Otherwise the
/// three stages follow each other; the first that fails ends the cycle and
/// leaves the machine as the stages before it made it.
#[verifier::opaque]
pub open spec fn step_spec(m: Machine) -> Step {
    if at_halt(m) {
        Step { machine: m, notice: None, status: Ok(true) }
    } else {
        let executed = execute_stage(m);
        let notice = execute_stage_notice(m);
        match decode_stage(executed) {
            Err(e) => Step { machine: executed, notice, status: Err(e) },
            Ok(decoded) => match fetch_spec(decoded) {
                Err(e) => Step { machine: decoded, notice, status: Err(e) },
                Ok(fetched) => Step { machine: fetched, notice, status: Ok(false) },
            },
        }
    }
}

/// A notice as a sequence of none or one.
pub open spec fn notice_seq(notice: Option<Notice>) -> Seq<Notice> {
    match notice {
        Some(n) => seq![n],
        None => Seq::empty(),
    }
}

/// A run of at most `cycles` cycles: it ends with the first cycle that halts
/// or fails, and else when the cycles are used up.
pub open spec fn run_spec(m: Machine, cycles: nat) -> Run
    decreases cycles,
{
    if cycles == 0 {
        Run { machine: m, notices: Seq::empty(), status: Ok(false) }
    } else {
        let step = step_spec(m);
        if step.status == Ok::<bool, Error>(false) {
            let rest = run_spec(step.machine, (cycles - 1) as nat);
            Run {
                machine: rest.machine,
                notices: notice_seq(step.notice) + rest.notices,
                status: rest.status,
            }
        } else {
            Run { machine: step.machine, notices: notice_seq(step.notice), status: step.status }
        }
    }
}

/// Fetches the word at the program counter and moves the program counter to
/// the next word. Outside memory nothing changes.
pub fn fetch(state: &mut EmulatorState) -> (r: Result<u32, Error>)
    ensures
        match fetch_spec(old(state)@) {
            Ok(m) => r == Ok::<u32, Error>(
                le_word(old(state)@.memory, old(state)@.regs[PC as int] as int),
            ) && final(state)@ == (Machine { pipeline: old(state)@.pipeline, ..m }),
            Err(e) => r == Err::<u32, Error>(e) && final(state)@ == old(state)@,
        },
{
    let pc: u32 = *state.read_reg(PC);
    match state.read_memory(pc as usize) {
        Ok(word) => {
            state.write_reg(PC, pc + BYTES_IN_WORD as u32);
            Ok(word)
        },
        Err(e) => Err(e),
    }
}

/// Runs one cycle of the pipeline.
pub fn step(state: &mut EmulatorState) -> (r: (Result<bool, Error>, Option<Notice>))
    requires
        decoded_wf(old(state)@),
    ensures
        final(state)@ == step_spec(old(state)@).machine,
        r.0 == step_spec(old(state)@).status,
        r.1 == step_spec(old(state)@).notice,
        decoded_wf(final(state)@),
{
    proof {
        reveal(step_spec);
    }
    let mut notice: Option<Notice> = None;
    match state.pipeline.decoded {
        Some(to_execute) => {
            match to_execute.instruction {
                Instruction::Halt => {
                    return (Ok(true), None);
                },
                _ => {},
            }
            notice = execute(state, to_execute);
        },
        None => {},
    }
    match state.pipeline.fetched {
        Some(word) => {
            match decode(&word) {
                Ok(instr) => {
                    state.pipeline.decoded = Some(instr);
                },
                Err(e) => {
                    return (Err(e), notice);
                },
            }
        },
        None => {},
    }
    match fetch(state) {
        Ok(word) => {
            state.pipeline.fetched = Some(word);
            (Ok(false), notice)
        },
        Err(e) => (Err(e), notice),
    }
}

/// Runs the pipeline until Halt is to be executed, a cycle fails, or
/// `max_cycles` cycles have run. What the cycles report is appended to
/// `notices`. `Ok(true)` says that the machine halted, `Ok(false)` that the
/// cycles were used up.
pub fn run_pipeline(state: &mut EmulatorState, max_cycles: u64, notices: &mut Vec<Notice>) -> (r:
    Result<bool, Error>)
    requires
        decoded_wf(old(state)@),
    ensures
        final(state)@ == run_spec(old(state)@, max_cycles as nat).machine,
        final(notices)@ == old(notices)@ + run_spec(old(state)@, max_cycles as nat).notices,
        r == run_spec(old(state)@, max_cycles as nat).status,
        decoded_wf(final(state)@),
{
    let ghost whole = run_spec(state@, max_cycles as nat);
    let ghost mut reported: Seq<Notice> = Seq::empty();
    let mut left: u64 = max_cycles;
    assert(notices@ == old(notices)@ + reported);
    while left > 0
        invariant
            decoded_wf(state@),
            whole == run_spec(old(state)@, max_cycles as nat),
            whole.machine == run_spec(state@, left as nat).machine,
            whole.status == run_spec(state@, left as nat).status,
            whole.notices == reported + run_spec(state@, left as nat).notices,
            notices@ == old(notices)@ + reported,
        decreases left,
    {
        let ghost rest = run_spec(state@, left as nat);
        let ghost next = step_spec(state@);
        let (status, notice) = step(state);
        match notice {
            Some(n) => {
                notices.push(n);
            },
            None => {},
        }
        proof {
            assert(notices@ == old(notices)@ + (reported + notice_seq(notice)));
            reported = reported + notice_seq(notice);
        }
        match status {
            Ok(false) => {
                left = left - 1;
                assert(rest.notices == notice_seq(notice) + run_spec(state@, left as nat).notices);
                assert(whole.notices == reported + run_spec(state@, left as nat).notices);
            },
            _ => {
                assert(rest.notices == notice_seq(notice));
                return status;
            },
        }
    }
    assert(whole.notices == reported);
    Ok(false)
}

/// A run that has halted or failed within some number of cycles ends the
/// same way, on the same machine and with the same notices, within any
/// larger number: once Halt is reached, more cycles change nothing.
pub proof fn lemma_run_converges(m: Machine, cycles: nat, more: nat)
    requires
        run_spec(m, cycles).status != Ok::<bool, Error>(false),
        cycles <= more,
    ensures
        run_spec(m, more) == run_spec(m, cycles),
    decreases cycles,
{
    if cycles > 0 {
        let step = step_spec(m);
        if step.status == Ok::<bool, Error>(false) {
            lemma_run_converges(step.machine, (cycles - 1) as nat, (more - 1) as nat);
        }
    }
}

/// A machine that comes to Halt stays there: a cycle at Halt reports that the
/// run has halted and changes nothing.
pub proof fn lemma_halt_is_final(m: Machine, cycles: nat)
    requires
        at_halt(m),
        cycles > 0,
    ensures
        run_spec(m, cycles).status == Ok::<bool, Error>(true),
        run_spec(m, cycles).machine == m,
        run_spec(m, cycles).notices == Seq::<Notice>::empty(),
{
    reveal(step_spec);
}

/// The machine after `cycles` cycles.
pub open spec fn after_cycles(m: Machine, cycles: nat) -> Machine
    decreases cycles,
{
    if cycles == 0 {
        m
    } else {
        after_cycles(step_spec(m).machine, (cycles - 1) as nat)
    }
}

/// Each of the next `cycles` cycles goes on: none halts and none fails.
pub open spec fn goes_on_for(m: Machine, cycles: nat) -> bool
    decreases cycles,
{
    cycles == 0 || (step_spec(m).status == Ok::<bool, Error>(false) && goes_on_for(
        step_spec(m).machine,
        (cycles - 1) as nat,
    ))
}

/// A run that can reach Halt does halt: where the machine comes to Halt
/// after some number of cycles, every run of more cycles than that halts, on
/// the machine as it came to Halt.
pub proof fn lemma_reached_halt_ends_the_run(m: Machine, cycles: nat, budget: nat)
    requires
        goes_on_for(m, cycles),
        at_halt(after_cycles(m, cycles)),
        budget > cycles,
    ensures
        run_spec(m, budget).status == Ok::<bool, Error>(true),
        run_spec(m, budget).machine == after_cycles(m, cycles),
    decreases cycles,
{
    if cycles == 0 {
        lemma_halt_is_final(m, budget);
    } else {
        lemma_reached_halt_ends_the_run(
            step_spec(m).machine,
            (cycles - 1) as nat,
            (budget - 1) as nat,
        );
    }
}

/// From an empty pipeline, two cycles bring the instruction at the program
/// counter into the decoded slot, and leave the program counter eight past
/// the address of that instruction; nothing else has changed, but that the
/// word after it is in the fetched slot.
pub proof fn lemma_pc_runs_eight_ahead(m: Machine, instr: ConditionalInstruction)
    requires
        m.wf(),
        m.pipeline == (Pipeline { fetched: None, decoded: None }),
        in_memory(m.regs[PC as int] as int),
        in_memory(m.regs[PC as int] + BYTES_IN_WORD),
        decode_spec(le_word(m.memory, m.regs[PC as int] as int)) == Ok::<
            ConditionalInstruction,
            Error,
        >(instr),
    ensures
        ({
            let address = m.regs[PC as int];
            let first = step_spec(m);
            let second = step_spec(first.machine);
            &&& first.status == Ok::<bool, Error>(false)
            &&& second.status == Ok::<bool, Error>(false)
            &&& second.machine.pipeline.decoded == Some(instr)
            &&& second.machine.pipeline.fetched == Some(le_word(m.memory, address + BYTES_IN_WORD))
            &&& second.machine.regs == m.regs.update(
                PC as int,
                (address + PIPELINE_OFFSET) as u32,
            )
            &&& second.machine.memory == m.memory
        }),
{
    reveal(step_spec);
    let address = m.regs[PC as int];
    let first = step_spec(m);
    assert(first.machine.regs[PC as int] == address + 4);
    let second = step_spec(first.machine);
    assert(second.machine.regs =~= m.regs.update(PC as int, (address + 8) as u32));
}

/// In a cycle that goes on and whose execute stage neither moves the program
/// counter nor empties the pipeline, the fetched word moves on to the decoded
/// slot while the program counter moves on by four: the distance of eight
/// between the program counter and the instruction to be executed stays.
pub proof fn lemma_pc_keeps_its_lead(m: Machine, word: u32)
    requires
        m.wf(),
        decoded_wf(m),
        !at_halt(m),
        m.pipeline.fetched == Some(word),
        step_spec(m).status == Ok::<bool, Error>(false),
        execute_stage(m).regs[PC as int] == m.regs[PC as int],
        execute_stage(m).pipeline == m.pipeline,
    ensures
        decode_spec(word) is Ok,
        step_spec(m).machine.pipeline.decoded == Some(decode_spec(word)->Ok_0),
        step_spec(m).machine.regs[PC as int] == m.regs[PC as int] + BYTES_IN_WORD,
{
    reveal(step_spec);
    lemma_execute_keeps_sizes(m);
}

/// Executing keeps the sizes of memory and of the register file.
pub proof fn lemma_execute_keeps_sizes(m: Machine)
    requires
        m.wf(),
        decoded_wf(m),
    ensures
        execute_stage(m).wf(),
{
}

/// A branch assembled at `current_address` for the target `target` takes
/// the program counter there: with both addresses on word boundaries and the
/// target within reach of 24 bits, executing the branch while the program
/// counter is eight past the branch, as the pipeline has it, leaves the
/// program counter at the target and the pipeline empty.
pub proof fn lemma_branch_reaches_target(m: Machine, target: u32, current_address: int)
    requires
        m.wf(),
        current_address >= 0,
        current_address % 4 == 0,
        target % 4 == 0,
        -0x200_0000 <= target - current_address - PIPELINE_OFFSET < 0x200_0000,
        m.regs[PC as int] == current_address + PIPELINE_OFFSET,
    ensures
        ({
            let branch = crate::types::InstructionBranch {
                offset: crate::instructions::branch_offset_spec(target as int, current_address),
            };
            let after = crate::execute::execute_branch_spec(m, branch);
            &&& branch.wf()
            &&& after.regs[PC as int] == target
            &&& after.pipeline == (Pipeline { fetched: None, decoded: None })
        }),
{
    let distance = target - current_address - 8;
    let words = distance / 4;
    assert(distance == 4 * words);
    assert(-0x80_0000 <= words < 0x80_0000);
    if words >= 0 {
        assert(words % 0x100_0000 == words);
    } else {
        assert(words % 0x100_0000 == words + 0x100_0000);
    }
}

} // verus!
