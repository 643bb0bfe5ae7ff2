//! The instruction model shared by the assembler and the emulator.
//!
//! Register and shift fields are stored in bytes; `wf` says when they fit the
//! width that the instruction word gives them.

use vstd::prelude::*;

verus! {

/// Everything that can go wrong in either tool.
#[derive(Clone, Copy, Debug, PartialEq, Eq, Structural)]
pub enum Error {
    /// Reading or writing a file failed.
    IoError,
    /// A source line matches no rule of the grammar.
    BadSyntax,
    /// A branch names a label that the source does not define.
    UnknownLabel,
    /// A register index is outside the permitted set.
    BadRegister,
    /// A literal does not fit where it stands.
    OperandOutOfRange,
    /// A word matches no instruction pattern.
    BadInstructionShape,
    /// A memory access lies outside memory.
    OutOfBoundsMemory,
}

/// How a register operand is shifted.
#[derive(Clone, Copy, Debug, PartialEq, Eq, Structural)]
pub enum ShiftType {
    Lsl,
    Lsr,
    Asr,
    Ror,
}

impl ShiftType {
    /// The two-bit code of the shift type.
    pub open spec fn spec_code(self) -> u8 {
        match self {
            ShiftType::Lsl => 0,
            ShiftType::Lsr => 1,
            ShiftType::Asr => 2,
            ShiftType::Ror => 3,
        }
    }

    /// The shift type with the given code, if there is one.
    pub open spec fn spec_from_u8(n: u8) -> Option<ShiftType> {
        if n == 0 {
            Some(ShiftType::Lsl)
        } else if n == 1 {
            Some(ShiftType::Lsr)
        } else if n == 2 {
            Some(ShiftType::Asr)
        } else if n == 3 {
            Some(ShiftType::Ror)
        } else {
            None
        }
    }

    /// The two-bit code of the shift type.
    pub fn code(self) -> (c: u8)
        ensures
            c == self.spec_code(),
            c < 4,
    {
        match self {
            ShiftType::Lsl => 0,
            ShiftType::Lsr => 1,
            ShiftType::Asr => 2,
            ShiftType::Ror => 3,
        }
    }

    /// The shift type with the code `n`; every code below 4 has one.
    pub fn from_u8(n: u8) -> (r: Option<ShiftType>)
        ensures
            r == Self::spec_from_u8(n),
            r is Some <==> n < 4,
            r matches Some(t) ==> t.spec_code() == n,
    {
        match n {
            0 => Some(ShiftType::Lsl),
            1 => Some(ShiftType::Lsr),
            2 => Some(ShiftType::Asr),
            3 => Some(ShiftType::Ror),
            _ => None,
        }
    }
}

/// The operation of a data-processing instruction.
#[derive(Clone, Copy, Debug, PartialEq, Eq, Structural)]
pub enum ProcessingOpcode {
    And,
    Eor,
    Sub,
    Rsb,
    Add,
    Tst,
    Teq,
    Cmp,
    Orr,
    Mov,
}

impl ProcessingOpcode {
    /// The four-bit code of the opcode.
    pub open spec fn spec_code(self) -> u8 {
        match self {
            ProcessingOpcode::And => 0x0,
            ProcessingOpcode::Eor => 0x1,
            ProcessingOpcode::Sub => 0x2,
            ProcessingOpcode::Rsb => 0x3,
            ProcessingOpcode::Add => 0x4,
            ProcessingOpcode::Tst => 0x8,
            ProcessingOpcode::Teq => 0x9,
            ProcessingOpcode::Cmp => 0xa,
            ProcessingOpcode::Orr => 0xc,
            ProcessingOpcode::Mov => 0xd,
        }
    }

    /// The opcode with the given code, if there is one.
    pub open spec fn spec_from_u8(n: u8) -> Option<ProcessingOpcode> {
        if n == 0x0 {
            Some(ProcessingOpcode::And)
        } else if n == 0x1 {
            Some(ProcessingOpcode::Eor)
        } else if n == 0x2 {
            Some(ProcessingOpcode::Sub)
        } else if n == 0x3 {
            Some(ProcessingOpcode::Rsb)
        } else if n == 0x4 {
            Some(ProcessingOpcode::Add)
        } else if n == 0x8 {
            Some(ProcessingOpcode::Tst)
        } else if n == 0x9 {
            Some(ProcessingOpcode::Teq)
        } else if n == 0xa {
            Some(ProcessingOpcode::Cmp)
        } else if n == 0xc {
            Some(ProcessingOpcode::Orr)
        } else if n == 0xd {
            Some(ProcessingOpcode::Mov)
        } else {
            None
        }
    }

    /// Tst, Teq and Cmp set flags and write no register.
    pub open spec fn discards_result(self) -> bool {
        self is Tst || self is Teq || self is Cmp
    }

    /// Sub, Rsb, Add and Cmp take their carry from the arithmetic unit.
    pub open spec fn is_arithmetic(self) -> bool {
        self is Sub || self is Rsb || self is Add || self is Cmp
    }

    /// The four-bit code of the opcode.
    pub fn code(self) -> (c: u8)
        ensures
            c == self.spec_code(),
            c < 16,
    {
        match self {
            ProcessingOpcode::And => 0x0,
            ProcessingOpcode::Eor => 0x1,
            ProcessingOpcode::Sub => 0x2,
            ProcessingOpcode::Rsb => 0x3,
            ProcessingOpcode::Add => 0x4,
            ProcessingOpcode::Tst => 0x8,
            ProcessingOpcode::Teq => 0x9,
            ProcessingOpcode::Cmp => 0xa,
            ProcessingOpcode::Orr => 0xc,
            ProcessingOpcode::Mov => 0xd,
        }
    }

    /// The opcode with the code `n`, if there is one.
    pub fn from_u8(n: u8) -> (r: Option<ProcessingOpcode>)
        ensures
            r == Self::spec_from_u8(n),
            r matches Some(op) ==> op.spec_code() == n,
    {
        match n {
            0x0 => Some(ProcessingOpcode::And),
            0x1 => Some(ProcessingOpcode::Eor),
            0x2 => Some(ProcessingOpcode::Sub),
            0x3 => Some(ProcessingOpcode::Rsb),
            0x4 => Some(ProcessingOpcode::Add),
            0x8 => Some(ProcessingOpcode::Tst),
            0x9 => Some(ProcessingOpcode::Teq),
            0xa => Some(ProcessingOpcode::Cmp),
            0xc => Some(ProcessingOpcode::Orr),
            0xd => Some(ProcessingOpcode::Mov),
            _ => None,
        }
    }
}

/// The condition under which an instruction takes effect.
#[derive(Clone, Copy, Debug, PartialEq, Eq, Structural)]
pub enum ConditionCode {
    Eq,
    Ne,
    Ge,
    Lt,
    Gt,
    Le,
    Al,
}

impl ConditionCode {
    /// The four-bit code of the condition.
    pub open spec fn spec_code(self) -> u8 {
        match self {
            ConditionCode::Eq => 0x0,
            ConditionCode::Ne => 0x1,
            ConditionCode::Ge => 0xa,
            ConditionCode::Lt => 0xb,
            ConditionCode::Gt => 0xc,
            ConditionCode::Le => 0xd,
            ConditionCode::Al => 0xe,
        }
    }

    /// The condition with the given code, if there is one.
    pub open spec fn spec_from_u8(n: u8) -> Option<ConditionCode> {
        if n == 0x0 {
            Some(ConditionCode::Eq)
        } else if n == 0x1 {
            Some(ConditionCode::Ne)
        } else if n == 0xa {
            Some(ConditionCode::Ge)
        } else if n == 0xb {
            Some(ConditionCode::Lt)
        } else if n == 0xc {
            Some(ConditionCode::Gt)
        } else if n == 0xd {
            Some(ConditionCode::Le)
        } else if n == 0xe {
            Some(ConditionCode::Al)
        } else {
            None
        }
    }

    /// The four-bit code of the condition.
    pub fn code(self) -> (c: u8)
        ensures
            c == self.spec_code(),
            c < 16,
    {
        match self {
            ConditionCode::Eq => 0x0,
            ConditionCode::Ne => 0x1,
            ConditionCode::Ge => 0xa,
            ConditionCode::Lt => 0xb,
            ConditionCode::Gt => 0xc,
            ConditionCode::Le => 0xd,
            ConditionCode::Al => 0xe,
        }
    }

    /// The condition with the code `n`, if there is one.
    pub fn from_u8(n: u8) -> (r: Option<ConditionCode>)
        ensures
            r == Self::spec_from_u8(n),
            r matches Some(c) ==> c.spec_code() == n,
    {
        match n {
            0x0 => Some(ConditionCode::Eq),
            0x1 => Some(ConditionCode::Ne),
            0xa => Some(ConditionCode::Ge),
            0xb => Some(ConditionCode::Lt),
            0xc => Some(ConditionCode::Gt),
            0xd => Some(ConditionCode::Le),
            0xe => Some(ConditionCode::Al),
            _ => None,
        }
    }
}

/// A flag of the status register.
#[derive(Clone, Copy, Debug, PartialEq, Eq, Structural)]
pub enum CpsrFlag {
    V,
    C,
    Z,
    N,
}

impl CpsrFlag {
    /// The bit of the status register that holds the flag.
    pub open spec fn spec_bit(self) -> u8 {
        match self {
            CpsrFlag::V => 28,
            CpsrFlag::C => 29,
            CpsrFlag::Z => 30,
            CpsrFlag::N => 31,
        }
    }

    /// The bit of the status register that holds the flag.
    pub fn bit(self) -> (b: u8)
        ensures
            b == self.spec_bit(),
            28 <= b <= 31,
    {
        match self {
            CpsrFlag::V => 28,
            CpsrFlag::C => 29,
            CpsrFlag::Z => 30,
            CpsrFlag::N => 31,
        }
    }
}

/// The shift applied to a register operand.
#[derive(Clone, Copy, Debug, PartialEq, Eq, Structural)]
pub enum Shift {
    /// Shift by a constant of five bits.
    ConstantShift(ShiftType, u8),
    /// Shift by the low byte of a register.
    RegisterShift(ShiftType, u8),
}

impl Shift {
    /// A constant amount has five bits, a register four.
    pub open spec fn wf(self) -> bool {
        match self {
            Shift::ConstantShift(_, amount) => amount < 32,
            Shift::RegisterShift(_, reg) => reg < 16,
        }
    }
}

/// The twelve-bit second operand.
#[derive(Clone, Copy, Debug, PartialEq, Eq, Structural)]
pub enum Operand2 {
    /// An eight-bit value, then a four-bit rotate: the operand is the value
    /// rotated right by twice the rotate.
    ConstantShift(u8, u8),
    /// A register, then the shift applied to it.
    ShiftedReg(u8, Shift),
}

impl Operand2 {
    /// A rotate and a register have four bits; the shift is well formed.
    pub open spec fn wf(self) -> bool {
        match self {
            Operand2::ConstantShift(_, rotate) => rotate < 16,
            Operand2::ShiftedReg(reg, shift) => reg < 16 && shift.wf(),
        }
    }
}

/// A data-processing instruction: `opcode` on Rn and the second operand,
/// into Rd; with `set_cond` it updates the flags.
#[derive(Clone, Copy, Debug, PartialEq, Eq, Structural)]
pub struct InstructionProcessing {
    pub opcode: ProcessingOpcode,
    pub set_cond: bool,
    pub rn: u8,
    pub rd: u8,
    pub operand2: Operand2,
}

impl InstructionProcessing {
    /// Both registers have four bits; the operand is well formed.
    pub open spec fn wf(self) -> bool {
        self.rn < 16 && self.rd < 16 && self.operand2.wf()
    }
}

/// A multiply instruction: Rm times Rs, plus Rn if it accumulates, into Rd;
/// with `set_cond` it updates the flags N and Z.
#[derive(Clone, Copy, Debug, PartialEq, Eq, Structural)]
pub struct InstructionMultiply {
    pub accumulate: bool,
    pub set_cond: bool,
    pub rd: u8,
    pub rn: u8,
    pub rs: u8,
    pub rm: u8,
}

impl InstructionMultiply {
    /// All four registers have four bits.
    pub open spec fn wf(self) -> bool {
        self.rd < 16 && self.rn < 16 && self.rs < 16 && self.rm < 16
    }
}

/// A transfer between Rd and memory at Rn moved by `offset`: a load or a
/// store, up or down, indexing before the access or after it.
#[derive(Clone, Copy, Debug, PartialEq, Eq, Structural)]
pub struct InstructionTransfer {
    pub is_preindexed: bool,
    pub up_bit: bool,
    pub load: bool,
    pub rn: u8,
    pub rd: u8,
    pub offset: Operand2,
}

impl InstructionTransfer {
    /// Both registers have four bits; the offset is well formed.
    pub open spec fn wf(self) -> bool {
        self.rn < 16 && self.rd < 16 && self.offset.wf()
    }
}

/// A branch by `offset` words, a signed number of 24 bits.
#[derive(Clone, Copy, Debug, PartialEq, Eq, Structural)]
pub struct InstructionBranch {
    pub offset: i32,
}

impl InstructionBranch {
    /// The offset is a signed number of 24 bits.
    pub open spec fn wf(self) -> bool {
        -0x80_0000 <= self.offset < 0x80_0000
    }
}

/// An instruction without its condition.
#[derive(Clone, Copy, Debug, PartialEq, Eq, Structural)]
pub enum Instruction {
    Processing(InstructionProcessing),
    Multiply(InstructionMultiply),
    Branch(InstructionBranch),
    Transfer(InstructionTransfer),
    Halt,
}

impl Instruction {
    /// Every field fits the width that the instruction word gives it.
    pub open spec fn wf(self) -> bool {
        match self {
            Instruction::Processing(p) => p.wf(),
            Instruction::Multiply(m) => m.wf(),
            Instruction::Branch(b) => b.wf(),
            Instruction::Transfer(t) => t.wf(),
            Instruction::Halt => true,
        }
    }
}

/// An instruction with the condition under which it takes effect.
#[derive(Clone, Copy, Debug, PartialEq, Eq, Structural)]
pub struct ConditionalInstruction {
    pub instruction: Instruction,
    pub cond: ConditionCode,
}

impl ConditionalInstruction {
    /// Every field fits the width that the instruction word gives it.
    pub open spec fn wf(self) -> bool {
        self.instruction.wf()
    }

    /// `and r0,r0,r0` under the condition Eq: its word is all zeros, which is
    /// the word of Halt.
    pub open spec fn is_halt_alias(self) -> bool {
        self.cond is Eq && self.instruction == Instruction::Processing(
            InstructionProcessing {
                opcode: ProcessingOpcode::And,
                set_cond: false,
                rn: 0,
                rd: 0,
                operand2: Operand2::ShiftedReg(0, Shift::ConstantShift(ShiftType::Lsl, 0)),
            },
        )
    }

    /// The instructions that have a word of their own: well formed, Halt only
    /// under Eq, and not the alias of Halt.
    pub open spec fn is_canonical(self) -> bool {
        &&& self.wf()
        &&& self.instruction is Halt ==> self.cond is Eq
        &&& !self.is_halt_alias()
    }
}

/// The code of a shift type, of an opcode and of a condition each name it.
pub proof fn lemma_codes_round_trip(t: ShiftType, op: ProcessingOpcode, c: ConditionCode)
    ensures
        ShiftType::spec_from_u8(t.spec_code()) == Some(t),
        ProcessingOpcode::spec_from_u8(op.spec_code()) == Some(op),
        ConditionCode::spec_from_u8(c.spec_code()) == Some(c),
{
}

} // verus!
