//! A stack-based bytecode virtual machine.
//!
//! The machine loads a self-contained binary image (a magic watermark, a
//! textual literal pool, and an instruction byte stream), then repeatedly
//! fetches, decodes and executes opcodes against an operand stack and an
//! indexable memory array until a halt or a fault.

pub mod json;
pub mod loader;
pub mod obj;
pub mod op;
pub mod parse;
pub mod stack;
pub mod vm;
