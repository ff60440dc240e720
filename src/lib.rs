//! Emulation core of a Sharp-LR35902-class handheld console CPU: the
//! 64KB address space, the instruction decoder and the execution step.

pub mod cpu;
pub mod debugger;
pub mod error;
pub mod instructions;
pub mod mem;
pub mod register;
pub mod text;
