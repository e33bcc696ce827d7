//! Instruction-accurate interpreter for the Sharp LR35902 CPU core: an 8-bit
//! register machine with a 16-bit address bus, as found in the classic
//! handheld game console family.
//!
//! The crate models the register file with its 8/16-bit aliasing, the flag
//! register, the opcode decoder, and the instruction executor, together with
//! the cycle-accounting discipline that couples them to the memory bus.
//! The architectural meaning of every instruction is written down once, as a
//! mathematical interpreter over [`state::CpuState`], and the executable
//! machine in [`cpu`] is proved to follow it step by step.

pub mod bus;
pub mod cpu;
pub mod debugger;
pub mod instruction;
pub mod laws;
pub mod semantics;
pub mod state;
