//! A 16-bit virtual machine with four addressing modes, a 25-opcode
//! instruction set, a data stack, a call stack, and a host syscall table.
//!
//! Programs are flat arrays of 16-bit words. Each instruction is a header
//! word (opcode in the low byte, four 2-bit addressing-mode fields in the
//! high byte) followed by one raw argument word per operand. The machine
//! steps one instruction at a time; every fatal condition is reported as a
//! `Fault` value rather than a panic, and the machine's behaviour is pinned
//! down by a mathematical step function over its abstract state.

pub mod color;
pub mod laws;
pub mod machine;
pub mod opcode;
pub mod ops;
