//! The execution engine: fetch, decode, execute, and the fault model.
//!
//! The engine owns the loader's output, an operand stack and the fetch
//! cycle. Input and output are data: printing opcodes append to an output
//! buffer, and the input opcodes make the engine await a line that the
//! caller hands in with [`VM::feed`]. A host loop drains the buffer and
//! reads input between calls to [`VM::boot`]; the engine itself never
//! touches a device.

use vstd::prelude::*;
use vstd::pervasive::VecAdditionalExecFns;

use crate::loader;
use crate::loader::{load_spec, LoadError};
use crate::obj::{to_bool_spec, Obj, ObjV};
use crate::op::{op_byte, operand_width_spec, operand_width, Op, INSTRUCTION_SET_LEN};
use crate::parse::{parse_i64, parse_i64_spec};
use crate::stack::Stack;

verus! {

/// Why the machine faulted. Every fault is terminal: the engine reports it
/// and performs no further work.
#[derive(Debug, PartialEq)]
pub enum Fault {
    /// The instruction pointer reached or passed the end of the stream.
    InstructionPointerOutOfBounds,
    /// The fetched opcode byte lies beyond the instruction-set table.
    UnknownOpcode,
    /// The opcode's operand would run past the end of the stream.
    TruncatedOperand,
    /// A `Push` or `Pop` operand is not a valid memory index.
    MemoryPointerOutOfBounds,
    /// A pop or peek was attempted on an insufficiently populated stack.
    EmptyStackPop,
    /// A binary integer opcode found a non-integer operand; both operands
    /// are carried for diagnostics.
    TypeMismatch(Obj, Obj),
    /// `Sti` found a non-string on top of the stack; the value is carried
    /// for diagnostics.
    StrExpected(Obj),
    /// `Sti` or an integer read was handed text that does not parse as a
    /// 64-bit signed integer.
    ParseFailure,
    /// `Bool` cannot coerce `Null`.
    NullCoercion,
    /// A division or remainder by zero.
    DivisionByZero,
}

/// The mathematical value of a [`Fault`].
pub ghost enum FaultV {
    InstructionPointerOutOfBounds,
    UnknownOpcode,
    TruncatedOperand,
    MemoryPointerOutOfBounds,
    EmptyStackPop,
    TypeMismatch(ObjV, ObjV),
    StrExpected(ObjV),
    ParseFailure,
    NullCoercion,
    DivisionByZero,
}

impl View for Fault {
    type V = FaultV;

    open spec fn view(&self) -> FaultV {
        match self {
            Fault::InstructionPointerOutOfBounds => FaultV::InstructionPointerOutOfBounds,
            Fault::UnknownOpcode => FaultV::UnknownOpcode,
            Fault::TruncatedOperand => FaultV::TruncatedOperand,
            Fault::MemoryPointerOutOfBounds => FaultV::MemoryPointerOutOfBounds,
            Fault::EmptyStackPop => FaultV::EmptyStackPop,
            Fault::TypeMismatch(a, b) => FaultV::TypeMismatch(a@, b@),
            Fault::StrExpected(o) => FaultV::StrExpected(o@),
            Fault::ParseFailure => FaultV::ParseFailure,
            Fault::NullCoercion => FaultV::NullCoercion,
            Fault::DivisionByZero => FaultV::DivisionByZero,
        }
    }
}

/// One item of buffered output: a value printed by `Out` (an integer in
/// decimal, a string as its raw text) or the line terminator printed by
/// `Nl`.
#[derive(Debug, PartialEq)]
pub enum OutItem {
    Value(Obj),
    Newline,
}

/// The mathematical value of an [`OutItem`].
pub ghost enum OutItemV {
    Value(ObjV),
    Newline,
}

impl View for OutItem {
    type V = OutItemV;

    open spec fn view(&self) -> OutItemV {
        match self {
            OutItem::Value(o) => OutItemV::Value(o@),
            OutItem::Newline => OutItemV::Newline,
        }
    }
}

/// Which kind of input the machine awaits after `Ini` or `Ins`.
#[derive(Clone, Copy, Debug, PartialEq, Eq, Structural)]
pub enum InputKind {
    /// `Ini`: the line must parse as a 64-bit signed integer.
    Int,
    /// `Ins`: the line is pushed verbatim as a string.
    Line,
}

/// The virtual machine. `run` falls when `End` executes; `err` rises, with
/// `fault` filled, when anything goes wrong, and the engine then performs
/// no further work. `ip` always points at the next unread instruction byte
/// and only ever increases.
pub struct VM {
    pub run: bool,
    pub err: bool,
    pub fault: Option<Fault>,
    pub mem: Vec<Obj>,
    pub instructions: Vec<u8>,
    pub ip: usize,
    pub opcode: u8,
    pub operand: u32,
    pub stack: Stack<Obj>,
    pub output: Vec<OutItem>,
    pub awaiting: Option<InputKind>,
}

/// The mathematical state of the machine, over which every transition is
/// specified.
#[verifier::ext_equal]
pub ghost struct VmV {
    pub run: bool,
    pub err: bool,
    pub fault: Option<FaultV>,
    pub mem: Seq<ObjV>,
    pub instructions: Seq<u8>,
    pub ip: int,
    pub opcode: u8,
    pub operand: u32,
    pub stack: Seq<ObjV>,
    pub output: Seq<OutItemV>,
    pub awaiting: Option<InputKind>,
}

impl View for VM {
    type V = VmV;

    open spec fn view(&self) -> VmV {
        VmV {
            run: self.run,
            err: self.err,
            fault: match self.fault {
                Some(f) => Some(f@),
                None => None,
            },
            mem: self.mem@.map_values(|o: Obj| o@),
            instructions: self.instructions@,
            ip: self.ip as int,
            opcode: self.opcode,
            operand: self.operand,
            stack: self.stack@.map_values(|o: Obj| o@),
            output: self.output@.map_values(|o: OutItem| o@),
            awaiting: self.awaiting,
        }
    }
}

/// The state after a fault: `err` rises and the fault is recorded; nothing
/// else changes.
pub open spec fn faulted(s: VmV, f: FaultV) -> VmV {
    VmV { err: true, fault: Some(f), ..s }
}

/// Fetch: fault when `ip` is at or past the end of the stream, otherwise
/// read the opcode byte and advance `ip` by one.
pub open spec fn fetch_spec(s: VmV) -> VmV {
    if s.ip >= s.instructions.len() {
        faulted(s, FaultV::InstructionPointerOutOfBounds)
    } else {
        VmV { opcode: s.instructions[s.ip], ip: s.ip + 1, ..s }
    }
}

/// The big-endian unsigned 32-bit integer held by four instruction bytes
/// starting at `i`.
pub open spec fn be_u32_at(instructions: Seq<u8>, i: int) -> u32 {
    (instructions[i] * 0x1000000 + instructions[i + 1] * 0x10000 + instructions[i + 2] * 0x100
        + instructions[i + 3]) as u32
}

/// Decode: fault when the opcode lies beyond the instruction-set table;
/// otherwise read the opcode's operand — faulting rather than running past
/// the end of a malformed stream — and advance `ip` past it.
pub open spec fn decode_spec(s: VmV) -> VmV {
    if s.opcode as int >= INSTRUCTION_SET_LEN {
        faulted(s, FaultV::UnknownOpcode)
    } else if operand_width_spec(s.opcode) == 0 {
        s
    } else if s.ip + operand_width_spec(s.opcode) > s.instructions.len() {
        faulted(s, FaultV::TruncatedOperand)
    } else {
        VmV {
            operand: be_u32_at(s.instructions, s.ip),
            ip: s.ip + operand_width_spec(s.opcode),
            ..s
        }
    }
}

/// `End`: stop the run loop; nothing else changes.
pub open spec fn end_spec(s: VmV) -> VmV {
    VmV { run: false, ..s }
}

/// `Push`: fault when the operand is not a memory index, otherwise copy
/// the addressed memory slot onto the stack. Memory never changes.
pub open spec fn push_op_spec(s: VmV) -> VmV {
    if s.operand as int >= s.mem.len() {
        faulted(s, FaultV::MemoryPointerOutOfBounds)
    } else {
        VmV { stack: s.stack.push(s.mem[s.operand as int]), ..s }
    }
}

/// `Pop`: fault when the operand is not a memory index or the stack is
/// empty, otherwise move the stack top into the addressed memory slot.
pub open spec fn pop_op_spec(s: VmV) -> VmV {
    if s.operand as int >= s.mem.len() {
        faulted(s, FaultV::MemoryPointerOutOfBounds)
    } else if s.stack.len() == 0 {
        faulted(s, FaultV::EmptyStackPop)
    } else {
        VmV {
            mem: s.mem.update(s.operand as int, s.stack.last()),
            stack: s.stack.drop_last(),
            ..s
        }
    }
}

/// `Drop`: fault when the stack is empty, otherwise discard the top.
pub open spec fn drop_op_spec(s: VmV) -> VmV {
    if s.stack.len() == 0 {
        faulted(s, FaultV::EmptyStackPop)
    } else {
        VmV { stack: s.stack.drop_last(), ..s }
    }
}

/// `Ini`: await a line of input to be parsed as an integer.
pub open spec fn ini_spec(s: VmV) -> VmV {
    VmV { awaiting: Some(InputKind::Int), ..s }
}

/// `Ins`: await a line of input to be pushed verbatim.
pub open spec fn ins_spec(s: VmV) -> VmV {
    VmV { awaiting: Some(InputKind::Line), ..s }
}

/// `Out`: fault when the stack is empty, otherwise emit the top value
/// without consuming it.
pub open spec fn out_spec(s: VmV) -> VmV {
    if s.stack.len() == 0 {
        faulted(s, FaultV::EmptyStackPop)
    } else {
        VmV { output: s.output.push(OutItemV::Value(s.stack.last())), ..s }
    }
}

/// `Nl`: emit a line terminator; always succeeds.
pub open spec fn nl_spec(s: VmV) -> VmV {
    VmV { output: s.output.push(OutItemV::Newline), ..s }
}

/// `Sti`: pop the top; fault when the stack is empty, the top is not a
/// string, or the text does not parse as a 64-bit integer; otherwise push
/// the parsed integer. A failed attempt does not restore the popped value.
pub open spec fn sti_spec(s: VmV) -> VmV {
    if s.stack.len() == 0 {
        faulted(s, FaultV::EmptyStackPop)
    } else {
        let top = s.stack.last();
        let rest = s.stack.drop_last();
        match top {
            ObjV::Str(text) => match parse_i64_spec(text) {
                Some(v) => VmV { stack: rest.push(ObjV::Int(v as i64)), ..s },
                None => faulted(VmV { stack: rest, ..s }, FaultV::ParseFailure),
            },
            _ => faulted(VmV { stack: rest, ..s }, FaultV::StrExpected(top)),
        }
    }
}

/// `Bool`: pop the top and push its truthiness as `Int(0)` or `Int(1)`;
/// fault when the stack is empty or the top is `Null`. A failed coercion
/// does not restore the popped value.
pub open spec fn bool_op_spec(s: VmV) -> VmV {
    if s.stack.len() == 0 {
        faulted(s, FaultV::EmptyStackPop)
    } else {
        let top = s.stack.last();
        let rest = s.stack.drop_last();
        match to_bool_spec(top) {
            Some(b) => VmV { stack: rest.push(b), ..s },
            None => faulted(VmV { stack: rest, ..s }, FaultV::NullCoercion),
        }
    }
}

/// Whether an opcode belongs to the binary integer family.
pub open spec fn is_binary_op(o: Op) -> bool {
    match o {
        Op::Add | Op::Sub | Op::Mul | Op::Div | Op::Mod | Op::Gth | Op::Lth | Op::Geq
            | Op::Leq => true,
        _ => false,
    }
}

/// The integer a binary opcode computes from its left and right operands,
/// or the fault it raises. Addition, subtraction and multiplication wrap
/// on 64-bit overflow; division and remainder truncate toward zero, fault
/// on a zero divisor, and wrap on the one overflowing quotient.
pub open spec fn binop_value(o: Op, a: i64, b: i64) -> Result<i64, FaultV> {
    match o {
        Op::Add => Ok(a.wrapping_add(b)),
        Op::Sub => Ok(a.wrapping_sub(b)),
        Op::Mul => Ok(a.wrapping_mul(b)),
        Op::Div => if b == 0 {
            Err(FaultV::DivisionByZero)
        } else {
            // The one overflowing quotient, `i64::MIN / -1`, wraps.
            Ok(match a.checked_div(b) {
                Some(q) => q,
                None => i64::MIN,
            })
        },
        Op::Mod => if b == 0 {
            Err(FaultV::DivisionByZero)
        } else {
            // The one overflowing remainder, of `i64::MIN % -1`, is zero.
            Ok(match a.checked_rem(b) {
                Some(r) => r,
                None => 0i64,
            })
        },
        Op::Gth => Ok(if a > b { 1i64 } else { 0i64 }),
        Op::Lth => Ok(if a < b { 1i64 } else { 0i64 }),
        Op::Geq => Ok(if a >= b { 1i64 } else { 0i64 }),
        Op::Leq => Ok(if a <= b { 1i64 } else { 0i64 }),
        _ => Ok(0i64),
    }
}

/// A binary integer opcode: pop the right operand, then the left, fault
/// when fewer than two values were there or either is not an integer, else
/// push the result of `op(left, right)`. The failed pops are not rolled
/// back: a fault leaves the stack drained of whatever was popped.
pub open spec fn binop_spec(s: VmV, o: Op) -> VmV {
    if s.stack.len() < 2 {
        faulted(VmV { stack: Seq::empty(), ..s }, FaultV::EmptyStackPop)
    } else {
        let a = s.stack[s.stack.len() - 2];
        let b = s.stack[s.stack.len() - 1];
        let rest = s.stack.take(s.stack.len() - 2);
        match (a, b) {
            (ObjV::Int(ai), ObjV::Int(bi)) => match binop_value(o, ai, bi) {
                Ok(v) => VmV { stack: rest.push(ObjV::Int(v)), ..s },
                Err(f) => faulted(VmV { stack: rest, ..s }, f),
            },
            _ => faulted(VmV { stack: rest, ..s }, FaultV::TypeMismatch(a, b)),
        }
    }
}

/// Execute: dispatch on the decoded opcode. Decode has already ruled out
/// bytes beyond the table, so the fallthrough branch is never reached from
/// [`tick_spec`].
pub open spec fn execute_spec(s: VmV) -> VmV {
    if s.opcode == op_byte(Op::End) {
        end_spec(s)
    } else if s.opcode == op_byte(Op::Push) {
        push_op_spec(s)
    } else if s.opcode == op_byte(Op::Pop) {
        pop_op_spec(s)
    } else if s.opcode == op_byte(Op::Drop) {
        drop_op_spec(s)
    } else if s.opcode == op_byte(Op::Ini) {
        ini_spec(s)
    } else if s.opcode == op_byte(Op::Ins) {
        ins_spec(s)
    } else if s.opcode == op_byte(Op::Out) {
        out_spec(s)
    } else if s.opcode == op_byte(Op::Nl) {
        nl_spec(s)
    } else if s.opcode == op_byte(Op::Sti) {
        sti_spec(s)
    } else if s.opcode == op_byte(Op::Bool) {
        bool_op_spec(s)
    } else if s.opcode == op_byte(Op::Add) {
        binop_spec(s, Op::Add)
    } else if s.opcode == op_byte(Op::Sub) {
        binop_spec(s, Op::Sub)
    } else if s.opcode == op_byte(Op::Mul) {
        binop_spec(s, Op::Mul)
    } else if s.opcode == op_byte(Op::Div) {
        binop_spec(s, Op::Div)
    } else if s.opcode == op_byte(Op::Mod) {
        binop_spec(s, Op::Mod)
    } else if s.opcode == op_byte(Op::Gth) {
        binop_spec(s, Op::Gth)
    } else if s.opcode == op_byte(Op::Lth) {
        binop_spec(s, Op::Lth)
    } else if s.opcode == op_byte(Op::Geq) {
        binop_spec(s, Op::Geq)
    } else if s.opcode == op_byte(Op::Leq) {
        binop_spec(s, Op::Leq)
    } else {
        s
    }
}

/// One whole fetch-decode-execute cycle; a fault in an earlier phase stops
/// the later ones.
pub open spec fn tick_spec(s: VmV) -> VmV {
    let fetched = fetch_spec(s);
    if fetched.err {
        fetched
    } else {
        let decoded = decode_spec(fetched);
        if decoded.err {
            decoded
        } else {
            execute_spec(decoded)
        }
    }
}

/// Whether the machine can take another cycle: it is running, has not
/// faulted, and awaits no input.
pub open spec fn running(s: VmV) -> bool {
    s.run && !s.err && s.awaiting is None
}

/// The state after `n` whole cycles.
pub open spec fn iter_tick(s: VmV, n: nat) -> VmV
    decreases n,
{
    if n == 0 {
        s
    } else {
        tick_spec(iter_tick(s, (n - 1) as nat))
    }
}

/// Handing a line of input to the machine: when an integer is awaited the
/// line must parse, and a parse failure is a fault; when a plain line is
/// awaited it is pushed verbatim; a machine awaiting nothing ignores it.
pub open spec fn feed_spec(s: VmV, line: Seq<char>) -> VmV {
    match s.awaiting {
        None => s,
        Some(InputKind::Int) => match parse_i64_spec(line) {
            Some(v) => VmV { stack: s.stack.push(ObjV::Int(v as i64)), awaiting: None, ..s },
            None => faulted(VmV { awaiting: None, ..s }, FaultV::ParseFailure),
        },
        Some(InputKind::Line) => VmV {
            stack: s.stack.push(ObjV::Str(line)),
            awaiting: None,
            ..s
        },
    }
}

/// How many cycles the machine can still take before it must stop: the
/// bytes left in the stream, plus one for the cycle that discovers it is
/// out of them. Each cycle strictly lowers this, so every boot terminates.
pub open spec fn boot_measure(s: VmV) -> int {
    (if s.ip <= s.instructions.len() {
        s.instructions.len() - s.ip
    } else {
        0
    }) + (if running(s) {
        1int
    } else {
        0int
    })
}

/// A cycle that leaves the machine running advanced the instruction
/// pointer and kept it within the stream; no cycle ever changes the stream
/// or moves the pointer backwards, so [`boot_measure`] strictly falls
/// across every cycle taken from a running state.
pub proof fn lemma_tick_progress(s: VmV)
    ensures
        tick_spec(s).instructions == s.instructions,
        tick_spec(s).ip >= s.ip,
        s.ip <= s.instructions.len() ==> tick_spec(s).ip <= s.instructions.len(),
        running(tick_spec(s)) ==> s.ip < s.instructions.len() && tick_spec(s).ip > s.ip
            && tick_spec(s).ip <= s.instructions.len(),
        running(s) ==> 0 <= boot_measure(tick_spec(s)) < boot_measure(s),
{
}

/// The memory pool's length is fixed at load time: no cycle grows or
/// shrinks it.
pub proof fn lemma_tick_preserves_memory_len(s: VmV)
    ensures
        tick_spec(s).mem.len() == s.mem.len(),
{
}

impl VM {
    /// Load an image and build a machine around it: the watermark is
    /// checked first, then the literal pool, then the instruction region,
    /// and the first failure is returned. A fresh machine is running, has
    /// no fault, and starts with `ip` zero and an empty stack.
    pub fn new(bytecode: &Vec<u8>) -> (r: Result<VM, LoadError>)
        ensures
            match r {
                Ok(vm) => load_spec(bytecode@) == Ok::<(Seq<ObjV>, Seq<u8>), LoadError>(
                    (vm@.mem, vm@.instructions),
                ) && vm@.run && !vm@.err && vm@.fault is None && vm@.ip == 0 && vm@.opcode == 0
                    && vm@.operand == 0 && vm@.stack == Seq::<ObjV>::empty()
                    && vm@.output == Seq::<OutItemV>::empty() && vm@.awaiting is None,
                Err(e) => load_spec(bytecode@) == Err::<(Seq<ObjV>, Seq<u8>), LoadError>(e),
            },
    {
        if !loader::watermark_ok(bytecode) {
            return Err(LoadError::BadWatermark);
        }
        let mem = match loader::read_mem(bytecode) {
            Ok(mem) => mem,
            Err(e) => {
                return Err(e);
            },
        };
        let instructions = match loader::read_instructions(bytecode) {
            Ok(instructions) => instructions,
            Err(e) => {
                return Err(e);
            },
        };
        Ok(VM {
            run: true,
            err: false,
            fault: None,
            mem,
            instructions,
            ip: 0,
            opcode: 0,
            operand: 0,
            stack: Stack::new(),
            output: Vec::new(),
            awaiting: None,
        })
    }

    /// Record a fault: `err` rises and nothing else changes.
    fn error(&mut self, f: Fault)
        ensures
            final(self)@ == faulted(old(self)@, f@),
    {
        self.err = true;
        self.fault = Some(f);
        proof {
            assert(self@ =~= faulted(old(self)@, f@));
        }
    }

    /// Fetch the next opcode byte, as [`fetch_spec`] defines it.
    pub fn fetch(&mut self)
        ensures
            final(self)@ == fetch_spec(old(self)@),
    {
        if self.ip >= self.instructions.len() {
            self.error(Fault::InstructionPointerOutOfBounds);
        } else {
            self.opcode = self.instructions[self.ip];
            self.ip = self.ip + 1;
            proof {
                assert(self@ =~= fetch_spec(old(self)@));
            }
        }
    }

    /// Read the fetched opcode's operand, as the non-fault arms of
    /// [`decode_spec`] define it.
    fn decode_operand(&mut self)
        requires
            (old(self).opcode as int) < INSTRUCTION_SET_LEN,
        ensures
            final(self)@ == decode_spec(old(self)@),
    {
        let width = operand_width(self.opcode);
        if width == 0 {
            return;
        }
        if self.ip >= self.instructions.len() || self.instructions.len() - self.ip < width {
            self.error(Fault::TruncatedOperand);
            return;
        }
        let b0 = self.instructions[self.ip];
        let b1 = self.instructions[self.ip + 1];
        let b2 = self.instructions[self.ip + 2];
        let b3 = self.instructions[self.ip + 3];
        self.operand = (b0 as u32) * 0x1000000 + (b1 as u32) * 0x10000 + (b2 as u32) * 0x100
            + (b3 as u32);
        self.ip = self.ip + 4;
        proof {
            assert(self@ =~= decode_spec(old(self)@));
        }
    }

    /// Decode the fetched opcode, as [`decode_spec`] defines it.
    pub fn decode(&mut self)
        ensures
            final(self)@ == decode_spec(old(self)@),
    {
        if self.opcode as usize >= INSTRUCTION_SET_LEN {
            self.error(Fault::UnknownOpcode);
        } else {
            self.decode_operand();
        }
    }

    /// `End`: stop the run loop.
    fn op_end(&mut self)
        ensures
            final(self)@ == end_spec(old(self)@),
    {
        self.run = false;
        proof {
            assert(self@ =~= end_spec(old(self)@));
        }
    }

    /// `Push`: copy a memory slot onto the stack.
    fn op_push(&mut self)
        ensures
            final(self)@ == push_op_spec(old(self)@),
    {
        let mp = self.operand as usize;
        if mp >= self.mem.len() {
            self.error(Fault::MemoryPointerOutOfBounds);
        } else {
            let obj = self.mem[mp].clone();
            self.stack.push(obj);
            proof {
                assert(self@.stack =~= push_op_spec(old(self)@).stack);
                assert(self@ =~= push_op_spec(old(self)@));
            }
        }
    }

    /// `Pop`: move the stack top into a memory slot.
    fn op_pop(&mut self)
        ensures
            final(self)@ == pop_op_spec(old(self)@),
    {
        let mp = self.operand as usize;
        if mp >= self.mem.len() {
            self.error(Fault::MemoryPointerOutOfBounds);
        } else {
            match self.stack.pop() {
                None => self.error(Fault::EmptyStackPop),
                Some(obj) => {
                    self.mem.set(mp, obj);
                    proof {
                        assert(self@.mem =~= pop_op_spec(old(self)@).mem);
                        assert(self@.stack =~= pop_op_spec(old(self)@).stack);
                        assert(self@ =~= pop_op_spec(old(self)@));
                    }
                },
            }
        }
    }

    /// `Drop`: discard the stack top.
    fn op_drop(&mut self)
        ensures
            final(self)@ == drop_op_spec(old(self)@),
    {
        match self.stack.pop() {
            None => self.error(Fault::EmptyStackPop),
            Some(_) => {
                proof {
                    assert(self@.stack =~= drop_op_spec(old(self)@).stack);
                    assert(self@ =~= drop_op_spec(old(self)@));
                }
            },
        }
    }

    /// `Ini`: await an integer line.
    fn op_ini(&mut self)
        ensures
            final(self)@ == ini_spec(old(self)@),
    {
        self.awaiting = Some(InputKind::Int);
        proof {
            assert(self@ =~= ini_spec(old(self)@));
        }
    }

    /// `Ins`: await a verbatim line.
    fn op_ins(&mut self)
        ensures
            final(self)@ == ins_spec(old(self)@),
    {
        self.awaiting = Some(InputKind::Line);
        proof {
            assert(self@ =~= ins_spec(old(self)@));
        }
    }

    /// `Out`: emit the stack top without consuming it.
    fn op_out(&mut self)
        ensures
            final(self)@ == out_spec(old(self)@),
    {
        let top = self.stack.peek();
        if let Some(obj) = top {
            let o = obj.clone();
            self.output.push(OutItem::Value(o));
            proof {
                assert(self@.output =~= out_spec(old(self)@).output);
                assert(self@ =~= out_spec(old(self)@));
            }
        } else {
            self.error(Fault::EmptyStackPop);
        }
    }

    /// `Nl`: emit a line terminator.
    fn op_nl(&mut self)
        ensures
            final(self)@ == nl_spec(old(self)@),
    {
        self.output.push(OutItem::Newline);
        proof {
            assert(self@.output =~= nl_spec(old(self)@).output);
            assert(self@ =~= nl_spec(old(self)@));
        }
    }

    /// `Sti`: pop a string and push the integer it spells.
    fn op_sti(&mut self)
        ensures
            final(self)@ == sti_spec(old(self)@),
    {
        match self.stack.pop() {
            None => self.error(Fault::EmptyStackPop),
            Some(obj) => match obj {
                Obj::Str(text) => match parse_i64(text.as_str()) {
                    Some(v) => {
                        self.stack.push(Obj::Int(v));
                        proof {
                            assert(self@.stack =~= sti_spec(old(self)@).stack);
                            assert(self@ =~= sti_spec(old(self)@));
                        }
                    },
                    None => {
                        self.error(Fault::ParseFailure);
                        proof {
                            assert(self@ =~= sti_spec(old(self)@));
                        }
                    },
                },
                other => {
                    self.error(Fault::StrExpected(other));
                    proof {
                        assert(self@ =~= sti_spec(old(self)@));
                    }
                },
            },
        }
    }

    /// `Bool`: pop a value and push its truthiness.
    fn op_bool(&mut self)
        ensures
            final(self)@ == bool_op_spec(old(self)@),
    {
        match self.stack.pop() {
            None => self.error(Fault::EmptyStackPop),
            Some(obj) => match obj.to_bool() {
                Some(b) => {
                    self.stack.push(b);
                    proof {
                        assert(self@.stack =~= bool_op_spec(old(self)@).stack);
                        assert(self@ =~= bool_op_spec(old(self)@));
                    }
                },
                None => {
                    self.error(Fault::NullCoercion);
                    proof {
                        assert(self@ =~= bool_op_spec(old(self)@));
                    }
                },
            },
        }
    }

    /// A binary integer opcode: pop right then left, check both are
    /// integers, push `op(left, right)`.
    fn binary_int_op(&mut self, o: Op)
        requires
            is_binary_op(o),
        ensures
            final(self)@ == binop_spec(old(self)@, o),
    {
        let top_b = self.stack.pop();
        let top_a = self.stack.pop();
        let (obj_a, obj_b) = match (top_a, top_b) {
            (Some(a), Some(b)) => (a, b),
            _ => {
                self.error(Fault::EmptyStackPop);
                proof {
                    assert(self@.stack =~= binop_spec(old(self)@, o).stack);
                    assert(self@ =~= binop_spec(old(self)@, o));
                }
                return;
            },
        };
        if !obj_a.is_int() || !obj_b.is_int() {
            self.error(Fault::TypeMismatch(obj_a, obj_b));
            proof {
                assert(self@.stack =~= binop_spec(old(self)@, o).stack);
                assert(self@ =~= binop_spec(old(self)@, o));
            }
            return;
        }
        let ai = match obj_a.as_int() {
            Some(i) => i,
            None => {
                return;
            },
        };
        let bi = match obj_b.as_int() {
            Some(i) => i,
            None => {
                return;
            },
        };
        let v = match o {
            Op::Add => ai.wrapping_add(bi),
            Op::Sub => ai.wrapping_sub(bi),
            Op::Mul => ai.wrapping_mul(bi),
            Op::Div => {
                if bi == 0 {
                    self.error(Fault::DivisionByZero);
                    proof {
                        assert(self@.stack =~= binop_spec(old(self)@, o).stack);
                        assert(self@ =~= binop_spec(old(self)@, o));
                    }
                    return;
                }
                match ai.checked_div(bi) {
                    Some(q) => q,
                    None => i64::MIN,
                }
            },
            Op::Mod => {
                if bi == 0 {
                    self.error(Fault::DivisionByZero);
                    proof {
                        assert(self@.stack =~= binop_spec(old(self)@, o).stack);
                        assert(self@ =~= binop_spec(old(self)@, o));
                    }
                    return;
                }
                match ai.checked_rem(bi) {
                    Some(r) => r,
                    None => 0,
                }
            },
            Op::Gth => if ai > bi { 1 } else { 0 },
            Op::Lth => if ai < bi { 1 } else { 0 },
            Op::Geq => if ai >= bi { 1 } else { 0 },
            Op::Leq => if ai <= bi { 1 } else { 0 },
            _ => 0,
        };
        self.stack.push(Obj::Int(v));
        proof {
            assert(self@.stack =~= binop_spec(old(self)@, o).stack);
            assert(self@ =~= binop_spec(old(self)@, o));
        }
    }

    /// Execute the decoded opcode, as [`execute_spec`] defines it.
    pub fn execute(&mut self)
        ensures
            final(self)@ == execute_spec(old(self)@),
    {
        let opcode = self.opcode;
        if opcode == 0 {
            self.op_end();
        } else if opcode == 1 {
            self.op_push();
        } else if opcode == 2 {
            self.op_pop();
        } else if opcode == 3 {
            self.op_drop();
        } else if opcode == 4 {
            self.op_ini();
        } else if opcode == 5 {
            self.op_ins();
        } else if opcode == 6 {
            self.op_out();
        } else if opcode == 7 {
            self.op_nl();
        } else if opcode == 8 {
            self.op_sti();
        } else if opcode == 9 {
            self.op_bool();
        } else if opcode == 10 {
            self.binary_int_op(Op::Add);
        } else if opcode == 11 {
            self.binary_int_op(Op::Sub);
        } else if opcode == 12 {
            self.binary_int_op(Op::Mul);
        } else if opcode == 13 {
            self.binary_int_op(Op::Div);
        } else if opcode == 14 {
            self.binary_int_op(Op::Mod);
        } else if opcode == 15 {
            self.binary_int_op(Op::Gth);
        } else if opcode == 16 {
            self.binary_int_op(Op::Lth);
        } else if opcode == 17 {
            self.binary_int_op(Op::Geq);
        } else if opcode == 18 {
            self.binary_int_op(Op::Leq);
        }
    }

    /// One whole fetch-decode-execute cycle, as [`tick_spec`] defines it.
    pub fn tick(&mut self)
        ensures
            final(self)@ == tick_spec(old(self)@),
    {
        self.fetch();
        if self.err {
            return;
        }
        self.decode();
        if self.err {
            return;
        }
        self.execute();
    }

    /// Hand the machine the line of input it awaits, as [`feed_spec`]
    /// defines it.
    pub fn feed(&mut self, line: String)
        ensures
            final(self)@ == feed_spec(old(self)@, line@),
    {
        match self.awaiting {
            None => {},
            Some(InputKind::Int) => {
                self.awaiting = None;
                match parse_i64(line.as_str()) {
                    Some(v) => {
                        self.stack.push(Obj::Int(v));
                        proof {
                            assert(self@.stack =~= feed_spec(old(self)@, line@).stack);
                            assert(self@ =~= feed_spec(old(self)@, line@));
                        }
                    },
                    None => {
                        self.error(Fault::ParseFailure);
                        proof {
                            assert(self@ =~= feed_spec(old(self)@, line@));
                        }
                    },
                }
            },
            Some(InputKind::Line) => {
                self.awaiting = None;
                self.stack.push(Obj::Str(line));
                proof {
                    assert(self@.stack =~= feed_spec(old(self)@, line@).stack);
                    assert(self@ =~= feed_spec(old(self)@, line@));
                }
            },
        }
    }

    /// Drive the machine until it halts, faults, or awaits input: exactly
    /// the first stopped state that repeated cycles reach. The caller
    /// reports the outcome, feeds input and resumes; a fault is terminal
    /// and the machine then performs no further work.
    #[verifier::loop_isolation(false)]
    pub fn boot(&mut self)
        ensures
            !running(final(self)@),
            exists|n: nat|
                #[trigger] iter_tick(old(self)@, n) == final(self)@ && (forall|m: nat|
                    m < n ==> running(iter_tick(old(self)@, m))),
    {
        let ghost orig = self@;
        let ghost mut steps: nat = 0;
        while self.run && !self.err && self.awaiting.is_none()
            invariant
                self@ == iter_tick(orig, steps),
                forall|m: nat| m < steps ==> running(#[trigger] iter_tick(orig, m)),
            decreases boot_measure(self@),
        {
            let ghost pre = self@;
            self.tick();
            proof {
                steps = steps + 1;
                assert(iter_tick(orig, steps) == tick_spec(iter_tick(orig, (steps - 1) as nat)));
                lemma_tick_progress(pre);
            }
        }
    }
}

/// Any opcode that pops — `Drop`, `Pop` (on a valid index), `Sti`, `Bool`,
/// `Out`, and every binary integer opcode — faults with the empty-stack
/// fault, rather than aborting, when the stack holds fewer values than it
/// needs.
pub proof fn lemma_stack_underflow_faults(s: VmV)
    requires
        s.stack.len() == 0,
    ensures
        drop_op_spec(s) == faulted(s, FaultV::EmptyStackPop),
        sti_spec(s) == faulted(s, FaultV::EmptyStackPop),
        bool_op_spec(s) == faulted(s, FaultV::EmptyStackPop),
        out_spec(s) == faulted(s, FaultV::EmptyStackPop),
        (s.operand as int) < s.mem.len() ==> pop_op_spec(s) == faulted(s, FaultV::EmptyStackPop),
        forall|o: Op| is_binary_op(o) ==> #[trigger] binop_spec(s, o) == faulted(
            VmV { stack: Seq::empty(), ..s },
            FaultV::EmptyStackPop,
        ),
{
    assert forall|o: Op| is_binary_op(o) implies #[trigger] binop_spec(s, o) == faulted(
        VmV { stack: Seq::empty(), ..s },
        FaultV::EmptyStackPop,
    ) by {
        assert(binop_spec(s, o) =~= faulted(VmV { stack: Seq::empty(), ..s }, FaultV::EmptyStackPop));
    }
}

/// A binary integer opcode, with fewer than two stack values, still faults
/// with the empty-stack fault when only one value is there; the lone value
/// is consumed by the failed pop.
pub proof fn lemma_binop_underflow_one(s: VmV, o: Op)
    requires
        is_binary_op(o),
        s.stack.len() == 1,
    ensures
        binop_spec(s, o) == faulted(VmV { stack: Seq::empty(), ..s }, FaultV::EmptyStackPop),
{
    assert(binop_spec(s, o) =~= faulted(VmV { stack: Seq::empty(), ..s }, FaultV::EmptyStackPop));
}

/// `Push` with an operand at or past the memory length faults with the
/// memory-pointer fault and changes nothing else; a valid operand copies
/// exactly that slot onto the stack and never mutates memory.
pub proof fn lemma_push_bounds(s: VmV)
    ensures
        s.operand as int >= s.mem.len() ==> push_op_spec(s) == faulted(
            s,
            FaultV::MemoryPointerOutOfBounds,
        ),
        (s.operand as int) < s.mem.len() ==> push_op_spec(s) == (VmV {
            stack: s.stack.push(s.mem[s.operand as int]),
            ..s
        }),
        push_op_spec(s).mem == s.mem,
{
}

/// After fetching an opcode byte at or past the table length, the cycle
/// faults with the unknown-opcode fault on that very tick.
pub proof fn lemma_unknown_opcode_faults(s: VmV)
    requires
        !s.err,
        0 <= s.ip < s.instructions.len(),
        s.instructions[s.ip] as int >= INSTRUCTION_SET_LEN,
    ensures
        tick_spec(s).err,
        tick_spec(s).fault == Some(FaultV::UnknownOpcode),
{
}

/// Left-operand-first semantics: with `a` pushed before `b`, a binary
/// opcode computes `op(a, b)` — subtraction subtracts the later push from
/// the earlier one — despite the right operand being popped first.
pub proof fn lemma_binop_ordering(s: VmV, o: Op, rest: Seq<ObjV>, a: i64, b: i64)
    requires
        is_binary_op(o),
        s.stack == rest.push(ObjV::Int(a)).push(ObjV::Int(b)),
        binop_value(o, a, b) is Ok,
    ensures
        binop_spec(s, o) == (VmV {
            stack: rest.push(ObjV::Int(binop_value(o, a, b)->Ok_0)),
            ..s
        }),
{
    assert(s.stack.len() == rest.len() + 2);
    assert(s.stack[s.stack.len() - 2] == ObjV::Int(a));
    assert(s.stack[s.stack.len() - 1] == ObjV::Int(b));
    assert(s.stack.take(s.stack.len() - 2) =~= rest);
    assert(binop_spec(s, o) =~= (VmV {
        stack: rest.push(ObjV::Int(binop_value(o, a, b)->Ok_0)),
        ..s
    }));
}

/// The `Bool` coercion: a nonzero integer and a nonempty string are true,
/// a zero integer and the empty string are false — pushed as `Int(1)` or
/// `Int(0)` — and `Null` faults instead of coercing.
pub proof fn lemma_bool_coercion(s: VmV, rest: Seq<ObjV>, top: ObjV)
    requires
        s.stack == rest.push(top),
    ensures
        (top matches ObjV::Int(i) ==> bool_op_spec(s) == (VmV {
            stack: rest.push(ObjV::Int(if i != 0 { 1i64 } else { 0i64 })),
            ..s
        })),
        (top matches ObjV::Str(t) ==> bool_op_spec(s) == (VmV {
            stack: rest.push(ObjV::Int(if t.len() != 0 { 1i64 } else { 0i64 })),
            ..s
        })),
        top is Null ==> bool_op_spec(s) == faulted(VmV { stack: rest, ..s }, FaultV::NullCoercion),
{
    assert(s.stack.len() == rest.len() + 1);
    assert(s.stack.last() == top);
    assert(s.stack.drop_last() =~= rest);
    match top {
        ObjV::Int(i) => {
            assert(bool_op_spec(s) =~= (VmV {
                stack: rest.push(ObjV::Int(if i != 0 { 1i64 } else { 0i64 })),
                ..s
            }));
        },
        ObjV::Str(t) => {
            assert(bool_op_spec(s) =~= (VmV {
                stack: rest.push(ObjV::Int(if t.len() != 0 { 1i64 } else { 0i64 })),
                ..s
            }));
        },
        ObjV::Null => {
            assert(bool_op_spec(s) =~= faulted(VmV { stack: rest, ..s }, FaultV::NullCoercion));
        },
    }
}

} // verus!
