//! A workbench for a subset of the 32-bit ARM instruction set: the shared
//! instruction model, the bit-exact codec, a two-pass assembler, and an
//! emulator with a three-stage pipeline.

pub mod alu;
pub mod assemble;
pub mod codec_laws;
pub mod constants;
pub mod decode;
pub mod encode;
pub mod execute;
pub mod gpio;
pub mod immediate;
pub mod instructions;
pub mod operands;
pub mod parse;
pub mod pipeline;
pub mod state;
pub mod symbols;
pub mod text;
pub mod types;
pub mod utils;
