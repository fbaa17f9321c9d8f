//! A CHIP-8 virtual machine: 4 KiB of memory, sixteen 8-bit registers, a
//! 16-level call stack, a 64x32 monochrome display, a 16-key keypad and two
//! countdown timers, driven one instruction at a time.
//!
//! [`Machine`] is the mathematical model of the machine and of every
//! instruction's effect on it. [`VM`] is the executable machine; each of its
//! operations is proved to do to its view what the model says.

#![allow(unused_imports)]

pub mod cpu;
pub mod display;
pub mod entropy;
pub mod fault;
pub mod font;
pub mod instruction;
pub mod laws;
pub mod machine;
pub mod vm;

pub use fault::{Fault, Progress, Trap};
pub use instruction::{decode, Instruction};
pub use machine::Machine;
pub use vm::VM;
