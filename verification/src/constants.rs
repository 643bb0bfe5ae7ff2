//! Sizes of the simulated machine and the bit-field table of an instruction word.
//!
//! Bit 0 of a word is its least significant bit. A field is given by the index
//! of its lowest bit (`*_POS`) and its width in bits (`*_SIZE`).

use vstd::prelude::*;

verus! {

/// Number of bytes of main memory.
pub const MEMORY_SIZE: usize = 65536;

/// Number of slots in the register file.
pub const NUM_REGS: usize = 17;

/// Registers `r0` to `r12` are general purpose.
pub const NUM_GENERAL_REGS: usize = 13;

/// A machine word is four bytes.
pub const BYTES_IN_WORD: usize = 4;

/// While an instruction executes, the program counter is this far past its address.
pub const PIPELINE_OFFSET: usize = 8;

/// Slot of the program counter in the register file.
pub const PC: usize = 15;

/// Slot of the status register in the register file.
pub const CPSR: usize = 16;

// Fields shared by several instruction shapes.
pub const COND_SIZE: u8 = 4;
pub const COND_POS: u32 = 28;
pub const I_POS: u32 = 25;
pub const S_POS: u32 = 20;
pub const RN_POS: u32 = 16;
pub const RD_POS: u32 = 12;
pub const REG_SIZE: u8 = 4;

// Data processing.
pub const OPCODE_SIZE: u8 = 4;
pub const OPCODE_POS: u32 = 21;

// Single data transfer.
pub const P_POS: u32 = 24;
pub const U_POS: u32 = 23;
pub const L_POS: u32 = 20;

// Multiply.
pub const A_POS: u32 = 21;
pub const RD_MULT_POS: u32 = 16;
pub const RN_MULT_POS: u32 = 12;
pub const RS_POS: u32 = 8;
pub const RM_POS: u32 = 0;

// Branch.
pub const OFFSET_BRANCH_SIZE: u8 = 24;
pub const OFFSET_BRANCH_POS: u32 = 0;

// The twelve bits of the second operand.
pub const IMM_VALUE_SIZE: u8 = 8;
pub const IMM_VALUE_POS: u32 = 0;
pub const IMM_SHIFT_SIZE: u8 = 4;
pub const IMM_SHIFT_POS: u32 = 8;
pub const SHIFT_TYPE_SIZE: u8 = 2;
pub const SHIFT_TYPE_POS: u32 = 5;
pub const CONST_SHIFT_SIZE: u8 = 5;
pub const CONST_SHIFT_POS: u32 = 7;
pub const REG_SHIFT_SIZE: u8 = 4;
pub const REG_SHIFT_POS: u32 = 8;

/// A bit field of an instruction word: `size` bits, the lowest at bit `pos`.
#[derive(Clone, Copy, Debug, PartialEq, Eq, Structural)]
pub struct InstructionField {
    pub size: u8,
    pub pos: u32,
}

impl InstructionField {
    /// A field of `size` bits whose lowest bit is `pos`.
    pub fn new(size: u8, pos: u32) -> (field: Self)
        ensures
            field == (InstructionField { size, pos }),
    {
        InstructionField { size, pos }
    }

    /// The one-bit field at `pos`.
    pub fn bit(pos: u32) -> (field: Self)
        ensures
            field == (InstructionField { size: 1, pos }),
    {
        InstructionField { size: 1, pos }
    }
}

/// The word whose lowest `size` bits are set and no others: `2^size - 1`.
pub open spec fn low_bits(size: u8) -> u32 {
    ((1u32 << size) - 1) as u32
}

/// The mask of the lowest `size` bits.
pub fn mask(size: u8) -> (m: u32)
    requires
        size < 32,
    ensures
        m == low_bits(size),
{
    assert(1u32 << size >= 1) by (bit_vector)
        requires
            size < 32,
    ;
    (1u32 << size) - 1
}

} // verus!
