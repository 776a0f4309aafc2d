//! Instruction-execution core of an 8-bit Game-Boy-class CPU: register file,
//! opcode decoder and single-step executor, with their behaviour stated as
//! contracts.
pub mod alu;
pub mod commands;
pub mod cpu;
pub mod execute;
pub mod input;
pub mod instruction;
pub mod register;
pub mod semantics;

pub use commands::{
    AritLogiU16Cmd, AritLogiU8Cmd, BitCmd, CtrCmd, JmpCmd, LoadU16Cmd, LoadU8Cmd, RSCmd,
};
pub use input::{
    BitInput, CompoundInputU8, DoubleInputU8, InputU16, InputU8, JPInput, JmpCmdCondition,
    JmpCmdInput, LDIncDecInputU8, LDInputU16, LDInputU8,
};
pub use instruction::Instruction;
pub use register::{FlagRegister, RegisterU16, RegisterU8, Registers};
pub use cpu::{MemoryBus, CPU};
pub use execute::ExecutionError;
