//! The state of the emulated machine: memory, registers and the pipeline.

use vstd::prelude::*;
use crate::constants::{BYTES_IN_WORD, CPSR, MEMORY_SIZE, NUM_REGS};
use crate::types::{ConditionalInstruction, CpsrFlag, Error};
use crate::utils::bit_is_set;

verus! {

/// The two slots between fetching an instruction and executing it.
#[derive(Clone, Copy, Debug, PartialEq, Eq, Structural)]
pub struct Pipeline {
    /// The word fetched last, not yet decoded.
    pub fetched: Option<u32>,
    /// The instruction decoded last, not yet executed.
    pub decoded: Option<ConditionalInstruction>,
}

impl Pipeline {
    /// An empty pipeline.
    pub fn new() -> (pipeline: Self)
        ensures
            pipeline == (Pipeline { fetched: None, decoded: None }),
    {
        Pipeline { fetched: None, decoded: None }
    }

    /// Empties both slots.
    pub fn flush(&mut self)
        ensures
            *final(self) == (Pipeline { fetched: None, decoded: None }),
    {
        self.fetched = None;
        self.decoded = None;
    }
}

impl Default for Pipeline {
    fn default() -> (pipeline: Self)
        ensures
            pipeline == (Pipeline { fetched: None, decoded: None }),
    {
        Pipeline::new()
    }
}

/// The machine as contracts see it: memory as a sequence of 65,536 bytes, the
/// register file as a sequence of 17 words, and the pipeline.
pub struct Machine {
    pub memory: Seq<u8>,
    pub regs: Seq<u32>,
    pub pipeline: Pipeline,
}

impl Machine {
    /// Memory and the register file have their sizes.
    pub open spec fn wf(self) -> bool {
        self.memory.len() == MEMORY_SIZE && self.regs.len() == NUM_REGS
    }
}

/// The word that four bytes of `memory` from `address` on write, the lowest
/// byte first.
pub open spec fn le_word(memory: Seq<u8>, address: int) -> u32 {
    (memory[address] + 0x100 * memory[address + 1] + 0x1_0000 * memory[address + 2] + 0x100_0000
        * memory[address + 3]) as u32
}

/// The word that four bytes of `memory` from `address` on write, the highest
/// byte first.
pub open spec fn be_word(memory: Seq<u8>, address: int) -> u32 {
    (memory[address + 3] + 0x100 * memory[address + 2] + 0x1_0000 * memory[address + 1] + 0x100_0000
        * memory[address]) as u32
}

/// Byte `index` of a word, byte 0 the lowest.
pub open spec fn word_byte(val: u32, index: int) -> u8 {
    if index == 0 {
        (val % 0x100) as u8
    } else if index == 1 {
        (val / 0x100 % 0x100) as u8
    } else if index == 2 {
        (val / 0x1_0000 % 0x100) as u8
    } else {
        (val / 0x100_0000) as u8
    }
}

/// `memory` with the four bytes of `val` written from `address` on, the lowest
/// byte first.
pub open spec fn store_word(memory: Seq<u8>, address: int, val: u32) -> Seq<u8> {
    memory.update(address, word_byte(val, 0)).update(address + 1, word_byte(val, 1)).update(
        address + 2,
        word_byte(val, 2),
    ).update(address + 3, word_byte(val, 3))
}

/// The words among the first `words` of memory that are not zero, each with
/// its address, in order of address. A word is read with its highest byte
/// first, so that it shows the bytes in the order in which memory holds them.
pub open spec fn nonzero_words(memory: Seq<u8>, words: int) -> Seq<(usize, u32)>
    decreases words,
{
    if words <= 0 {
        Seq::empty()
    } else {
        let before = nonzero_words(memory, words - 1);
        let address = BYTES_IN_WORD * (words - 1);
        if be_word(memory, address) != 0 {
            before.push((address as usize, be_word(memory, address)))
        } else {
            before
        }
    }
}

/// A word is in memory if all four of its bytes are.
pub open spec fn in_memory(address: int) -> bool {
    0 <= address && address + BYTES_IN_WORD <= MEMORY_SIZE
}

/// `cpsr` with bit `bit` set or cleared.
pub open spec fn with_flag(cpsr: u32, bit: u8, set: bool) -> u32 {
    if set {
        cpsr | (1u32 << bit)
    } else {
        cpsr & !(1u32 << bit)
    }
}

/// Setting or clearing a flag gives that bit its value and leaves every other
/// bit as it was.
pub proof fn lemma_with_flag(cpsr: u32, bit: u8, set: bool, other: u8)
    by (bit_vector)
    requires
        bit < 32,
        other < 32,
    ensures
        bit_is_set(with_flag(cpsr, bit, set), bit) == set,
        other != bit ==> bit_is_set(with_flag(cpsr, bit, set), other) == bit_is_set(cpsr, other),
{
}

/// A word stored and loaded again is the same word, and bytes outside the
/// four written keep their value.
pub proof fn lemma_store_then_load(memory: Seq<u8>, address: int, val: u32)
    requires
        0 <= address,
        address + 4 <= memory.len(),
    ensures
        le_word(store_word(memory, address, val), address) == val,
        store_word(memory, address, val).len() == memory.len(),
        forall|i: int|
            0 <= i < memory.len() && !(address <= i < address + 4) ==> store_word(
                memory,
                address,
                val,
            )[i] == memory[i],
{
}

/// Memory, the register file and the pipeline of one emulated machine.
pub struct EmulatorState {
    pub memory: [u8; MEMORY_SIZE],
    pub register_file: [u32; NUM_REGS],
    pub pipeline: Pipeline,
}

impl View for EmulatorState {
    type V = Machine;

    open spec fn view(&self) -> Machine {
        Machine { memory: self.memory@, regs: self.register_file@, pipeline: self.pipeline }
    }
}

/// Every state is a well-formed machine: its arrays have the sizes of memory
/// and of the register file.
pub proof fn lemma_state_is_wf(state: &EmulatorState)
    ensures
        state@.wf(),
{
}

impl EmulatorState {
    /// A machine with all memory and registers zero and an empty pipeline.
    pub fn new() -> (state: Self)
        ensures
            state@.wf(),
            state@.memory == Seq::new(MEMORY_SIZE as nat, |i: int| 0u8),
            state@.regs == Seq::new(NUM_REGS as nat, |i: int| 0u32),
            state@.pipeline == (Pipeline { fetched: None, decoded: None }),
    {
        let state = EmulatorState {
            memory: [0u8; MEMORY_SIZE],
            register_file: [0u32; NUM_REGS],
            pipeline: Pipeline::new(),
        };
        assert(state@.memory =~= Seq::new(MEMORY_SIZE as nat, |i: int| 0u8));
        assert(state@.regs =~= Seq::new(NUM_REGS as nat, |i: int| 0u32));
        state
    }

    /// A machine whose memory starts with `bytes`, cut or filled with zeros to
    /// the size of memory; registers zero, pipeline empty.
    pub fn with_memory(bytes: Vec<u8>) -> (state: Self)
        ensures
            state@.wf(),
            state@.memory == Seq::new(
                MEMORY_SIZE as nat,
                |i: int|
                    if i < bytes@.len() {
                        bytes@[i]
                    } else {
                        0u8
                    },
            ),
            state@.regs == Seq::new(NUM_REGS as nat, |i: int| 0u32),
            state@.pipeline == (Pipeline { fetched: None, decoded: None }),
    {
        let mut state = EmulatorState::new();
        let n: usize = if bytes.len() < MEMORY_SIZE {
            bytes.len()
        } else {
            MEMORY_SIZE
        };
        let mut i: usize = 0;
        while i < n
            invariant
                i <= n,
                n <= MEMORY_SIZE,
                n <= bytes@.len(),
                n == MEMORY_SIZE || n == bytes@.len(),
                state@.wf(),
                state@.regs == Seq::new(NUM_REGS as nat, |i: int| 0u32),
                state@.pipeline == (Pipeline { fetched: None, decoded: None }),
                forall|j: int| 0 <= j < i ==> state@.memory[j] == bytes@[j],
                forall|j: int| i <= j < MEMORY_SIZE ==> state@.memory[j] == 0,
            decreases n - i,
        {
            state.memory[i] = bytes[i];
            i = i + 1;
        }
        assert(state@.memory =~= Seq::new(
            MEMORY_SIZE as nat,
            |i: int|
                if i < bytes@.len() {
                    bytes@[i]
                } else {
                    0u8
                },
        ));
        state
    }

    /// The register file.
    pub fn regs(&self) -> (regs: &[u32; NUM_REGS])
        ensures
            regs@ == self@.regs,
    {
        &self.register_file
    }

    /// The word in register `index`.
    pub fn read_reg(&self, index: usize) -> (val: &u32)
        requires
            index < NUM_REGS,
        ensures
            *val == self@.regs[index as int],
    {
        &self.register_file[index]
    }

    /// Puts `val` in register `index`.
    pub fn write_reg(&mut self, index: usize, val: u32)
        requires
            index < NUM_REGS,
        ensures
            final(self)@ == (Machine {
                regs: old(self)@.regs.update(index as int, val),
                ..old(self)@
            }),
    {
        self.register_file[index] = val;
        assert(self@.regs =~= old(self)@.regs.update(index as int, val));
    }

    /// The word at `address`, the lowest byte first; out of bounds where its
    /// four bytes are not all in memory.
    pub fn read_memory(&self, address: usize) -> (r: Result<u32, Error>)
        ensures
            in_memory(address as int) ==> r == Ok::<u32, Error>(
                le_word(self@.memory, address as int),
            ),
            !in_memory(address as int) ==> r == Err::<u32, Error>(Error::OutOfBoundsMemory),
    {
        if address > MEMORY_SIZE - BYTES_IN_WORD {
            return Err(Error::OutOfBoundsMemory);
        }
        let b0: u32 = self.memory[address] as u32;
        let b1: u32 = self.memory[address + 1] as u32;
        let b2: u32 = self.memory[address + 2] as u32;
        let b3: u32 = self.memory[address + 3] as u32;
        Ok(b0 + 0x100 * b1 + 0x1_0000 * b2 + 0x100_0000 * b3)
    }

    /// Writes `val` at `address`, the lowest byte first. Where its four bytes
    /// are not all in memory the write is out of bounds and changes nothing.
    pub fn write_memory(&mut self, address: usize, val: u32) -> (r: Result<(), Error>)
        ensures
            in_memory(address as int) ==> r == Ok::<(), Error>(()) && final(self)@ == (Machine {
                memory: store_word(old(self)@.memory, address as int, val),
                ..old(self)@
            }),
            !in_memory(address as int) ==> r == Err::<(), Error>(Error::OutOfBoundsMemory)
                && final(self)@ == old(self)@,
    {
        if address > MEMORY_SIZE - BYTES_IN_WORD {
            return Err(Error::OutOfBoundsMemory);
        }
        self.memory[address] = (val % 0x100) as u8;
        self.memory[address + 1] = (val / 0x100 % 0x100) as u8;
        self.memory[address + 2] = (val / 0x1_0000 % 0x100) as u8;
        self.memory[address + 3] = (val / 0x100_0000) as u8;
        assert(self@.memory =~= store_word(old(self)@.memory, address as int, val));
        Ok(())
    }

    /// The words of memory that are not zero, each with its address, for a
    /// dump of the machine: every address that is a multiple of four, in
    /// order, the word read with its highest byte first.
    pub fn nonzero_memory(&self) -> (dump: Vec<(usize, u32)>)
        ensures
            dump@ == nonzero_words(self@.memory, (MEMORY_SIZE / BYTES_IN_WORD) as int),
    {
        let mut dump: Vec<(usize, u32)> = Vec::new();
        let mut word: usize = 0;
        while word < MEMORY_SIZE / BYTES_IN_WORD
            invariant
                word <= MEMORY_SIZE / BYTES_IN_WORD,
                dump@ == nonzero_words(self@.memory, word as int),
            decreases MEMORY_SIZE / BYTES_IN_WORD - word,
        {
            let address: usize = BYTES_IN_WORD * word;
            let b0: u32 = self.memory[address] as u32;
            let b1: u32 = self.memory[address + 1] as u32;
            let b2: u32 = self.memory[address + 2] as u32;
            let b3: u32 = self.memory[address + 3] as u32;
            let value: u32 = b3 + 0x100 * b2 + 0x1_0000 * b1 + 0x100_0000 * b0;
            if value != 0 {
                dump.push((address, value));
            }
            word = word + 1;
        }
        dump
    }

    /// Sets or clears a flag of the status register.
    pub fn set_flags(&mut self, flag: CpsrFlag, set: bool)
        ensures
            final(self)@ == (Machine {
                regs: old(self)@.regs.update(
                    CPSR as int,
                    with_flag(old(self)@.regs[CPSR as int], flag.spec_bit(), set),
                ),
                ..old(self)@
            }),
    {
        let bit: u8 = flag.bit();
        let cpsr: u32 = self.register_file[CPSR];
        if set {
            self.register_file[CPSR] = cpsr | (1u32 << bit);
        } else {
            self.register_file[CPSR] = cpsr & !(1u32 << bit);
        }
        assert(self@.regs =~= old(self)@.regs.update(
            CPSR as int,
            with_flag(old(self)@.regs[CPSR as int], flag.spec_bit(), set),
        ));
    }
}

impl Default for EmulatorState {
    fn default() -> (state: Self)
        ensures
            state@.wf(),
            state@.memory == Seq::new(MEMORY_SIZE as nat, |i: int| 0u8),
            state@.regs == Seq::new(NUM_REGS as nat, |i: int| 0u32),
            state@.pipeline == (Pipeline { fetched: None, decoded: None }),
    {
        EmulatorState::new()
    }
}

} // verus!
