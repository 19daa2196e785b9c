//! The opcode vocabulary and the fixed decode table.
//!
//! An instruction is one opcode byte followed by a fixed, opcode-defined
//! operand width: zero bytes for most opcodes, four bytes (a big-endian
//! unsigned integer) for `Push` and `Pop`. Bytes at or beyond
//! [`INSTRUCTION_SET_LEN`] are unknown opcodes and fault at runtime.

use vstd::prelude::*;

verus! {

/// How many opcodes the machine implements: byte values `0` to
/// `INSTRUCTION_SET_LEN - 1` dispatch to a handler, anything above is an
/// unknown opcode.
pub const INSTRUCTION_SET_LEN: usize = 19;

/// The opcode names, in table order, so that programs and tests need not
/// spell raw byte values. Names past `Leq` are reserved for future opcodes:
/// their byte values lie beyond the implemented table and fault as unknown.
#[derive(Clone, Copy, Debug, PartialEq, Eq, Structural)]
pub enum Op {
    End,
    Push,
    Pop,
    Drop,
    Ini,
    Ins,
    Out,
    Nl,
    Sti,
    Bool,
    Add,
    Sub,
    Mul,
    Div,
    Mod,
    Gth,
    Lth,
    Geq,
    Leq,
    Not,
    And,
    Or,
    Eq,
    Neq,
    Con,
    Jum,
    Jmpt,
    Jmpf,
    Br,
    Brt,
    Brf,
    Bac,
    Fail,
}

/// The byte value of each opcode: its position in the table order.
pub open spec fn op_byte(o: Op) -> u8 {
    match o {
        Op::End => 0,
        Op::Push => 1,
        Op::Pop => 2,
        Op::Drop => 3,
        Op::Ini => 4,
        Op::Ins => 5,
        Op::Out => 6,
        Op::Nl => 7,
        Op::Sti => 8,
        Op::Bool => 9,
        Op::Add => 10,
        Op::Sub => 11,
        Op::Mul => 12,
        Op::Div => 13,
        Op::Mod => 14,
        Op::Gth => 15,
        Op::Lth => 16,
        Op::Geq => 17,
        Op::Leq => 18,
        Op::Not => 19,
        Op::And => 20,
        Op::Or => 21,
        Op::Eq => 22,
        Op::Neq => 23,
        Op::Con => 24,
        Op::Jum => 25,
        Op::Jmpt => 26,
        Op::Jmpf => 27,
        Op::Br => 28,
        Op::Brt => 29,
        Op::Brf => 30,
        Op::Bac => 31,
        Op::Fail => 32,
    }
}

impl Op {
    /// The byte that encodes this opcode in an instruction stream.
    pub fn op(self) -> (r: u8)
        ensures
            r == op_byte(self),
    {
        match self {
            Op::End => 0,
            Op::Push => 1,
            Op::Pop => 2,
            Op::Drop => 3,
            Op::Ini => 4,
            Op::Ins => 5,
            Op::Out => 6,
            Op::Nl => 7,
            Op::Sti => 8,
            Op::Bool => 9,
            Op::Add => 10,
            Op::Sub => 11,
            Op::Mul => 12,
            Op::Div => 13,
            Op::Mod => 14,
            Op::Gth => 15,
            Op::Lth => 16,
            Op::Geq => 17,
            Op::Leq => 18,
            Op::Not => 19,
            Op::And => 20,
            Op::Or => 21,
            Op::Eq => 22,
            Op::Neq => 23,
            Op::Con => 24,
            Op::Jum => 25,
            Op::Jmpt => 26,
            Op::Jmpf => 27,
            Op::Br => 28,
            Op::Brt => 29,
            Op::Brf => 30,
            Op::Bac => 31,
            Op::Fail => 32,
        }
    }
}

/// The byte that encodes an opcode, as a free function.
pub fn op(o: Op) -> (r: u8)
    ensures
        r == op_byte(o),
{
    o.op()
}

/// The operand width the decode table assigns to an opcode byte: four bytes
/// for `Push` and `Pop`, zero for every other implemented opcode.
pub open spec fn operand_width_spec(opcode: u8) -> nat {
    if opcode == op_byte(Op::Push) || opcode == op_byte(Op::Pop) {
        4
    } else {
        0
    }
}

/// Look an opcode byte's operand width up in the decode table.
pub fn operand_width(opcode: u8) -> (r: usize)
    ensures
        r == operand_width_spec(opcode),
{
    if opcode == 1 || opcode == 2 {
        4
    } else {
        0
    }
}

} // verus!
