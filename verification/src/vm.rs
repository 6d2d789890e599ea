//! The virtual machine: a stack-based interpreter over linked instructions,
//! with call frames, a managed heap for composite values, and a suspension
//! protocol for host calls.
//!
//! Frame convention: a frame's `base` is the stack length at the moment the
//! frame is created, after the arguments (for `Call`) or the captured
//! environment (for `CallFuncObj`) have been pushed. Arguments therefore sit
//! at negative offsets from the base and locals at non-negative offsets;
//! `Return(n)` discards the locals, then `n` further slots (the arguments and
//! captures), and pushes the return value.
//!
//! The interpreter is total: it never panics. Any ill-formed state it could
//! not execute (a type confusion, a missing operand, a program counter past
//! the end) latches a runtime error instead. Float arithmetic needs IEEE 754
//! evaluation, which this interpreter does not model: a float-arithmetic
//! opcode latches an error, while float constants travel as pool ids and can
//! still be compared for identity of their source text by the pools.
//! Dynamic-library instructions latch a `LinkError`, since library loading
//! belongs to the embedder.

use vstd::prelude::*;
use crate::constants::ConstantsHolder;
use crate::text::{dec_rep, i64_to_decimal};

verus! {

/// A bytecode instruction after linking: jump and call targets are program
/// counters, constants are pool ids.
#[derive(Debug, Clone, Copy, PartialEq, Eq, Structural)]
pub enum VmInstr {
    Pop,
    Duplicate,
    LoadOffset(i32),
    StoreOffset(i32),
    PushNil(u16),
    PushBool(bool),
    PushInt(u32),
    PushFloat(u32),
    PushString(u32),
    AddInt,
    SubtractInt,
    MultiplyInt,
    DivideInt,
    PowerInt,
    Modulo,
    AddFloat,
    SubtractFloat,
    MultiplyFloat,
    DivideFloat,
    PowerFloat,
    SquareRoot,
    Not,
    And,
    Or,
    LessThanInt,
    LessThanOrEqualInt,
    GreaterThanInt,
    GreaterThanOrEqualInt,
    LessThanFloat,
    LessThanOrEqualFloat,
    GreaterThanFloat,
    GreaterThanOrEqualFloat,
    EqualInt,
    EqualFloat,
    EqualBool,
    EqualString,
    Jump(usize),
    JumpIf(usize),
    Call { nargs: u32, target: usize },
    CallFuncObj,
    CallExtern(u32),
    Return(u32),
    Stop,
    HostFunc(u16),
    Panic,
    ConstructStruct(u16),
    ConstructArray(u32),
    ConstructVariant { tag: u16 },
    DeconstructStruct,
    DeconstructVariant,
    GetField(u16),
    SetField(u16),
    GetIdx,
    SetIdx,
    MakeClosure { func_addr: usize },
    ArrayAppend,
    ArrayLength,
    ArrayPop,
    ConcatStrings,
    IntToString,
    FloatToString,
    LoadLib,
    LoadForeignFunc,
}

/// A VM value. Primitives are inline; composites live on the heap and are
/// carried as handles. A float value is the id of its pooled source text.
#[derive(Debug)]
pub enum Value {
    Nil,
    Bool(bool),
    Int(i64),
    Float(u32),
    Str(String),
    Array(usize),
    Struct(usize),
    Variant(usize),
    Closure(usize),
    ForeignHandle(u32),
}

impl Clone for Value {
    fn clone(&self) -> (r: Self)
        ensures
            r == self,
    {
        match self {
            Value::Nil => Value::Nil,
            Value::Bool(b) => Value::Bool(*b),
            Value::Int(v) => Value::Int(*v),
            Value::Float(id) => Value::Float(*id),
            Value::Str(s) => Value::Str(s.clone()),
            Value::Array(h) => Value::Array(*h),
            Value::Struct(h) => Value::Struct(*h),
            Value::Variant(h) => Value::Variant(*h),
            Value::Closure(h) => Value::Closure(*h),
            Value::ForeignHandle(id) => Value::ForeignHandle(*id),
        }
    }
}

/// A managed object: a struct's ordered fields, an array's elements, a
/// tagged variant payload, or a closure's code address plus captured values.
#[derive(Debug)]
pub enum HeapData {
    ArrayObj(Vec<Value>),
    StructObj(Vec<Value>),
    VariantObj(u16, Value),
    ClosureObj { code: usize, env: Vec<Value> },
}

/// A call frame. `base` is the stack length at frame creation; `nargs` is
/// the count of values the caller placed just below the base.
#[derive(Debug, Clone, Copy, PartialEq, Eq, Structural)]
pub struct Frame {
    pub return_pc: usize,
    pub base: usize,
    pub nargs: u32,
}

/// Source location of an instruction, for panic traces.
#[derive(Debug, Clone, Copy, PartialEq, Eq, Structural)]
pub struct DebugEntry {
    pub file_id: u32,
    pub lineno: usize,
    pub func_id: u32,
}

/// The kind of a latched runtime error. `Fault` covers conditions a
/// well-translated program never reaches: a type confusion, a missing
/// operand, integer overflow, a pc past the end, or float arithmetic.
#[derive(Debug)]
pub enum RuntimeErrorKind {
    DivideByZero,
    IndexOutOfBounds,
    UnhandledVariant,
    Panic(String),
    ForeignError,
    LinkError,
    Fault,
}

/// A latched runtime error: its kind and the location it arose at.
#[derive(Debug)]
pub struct RuntimeError {
    pub kind: RuntimeErrorKind,
    pub trace: Vec<DebugEntry>,
}

/// A suspended host call: the host function id and its arguments in source
/// order.
#[derive(Debug)]
pub struct PendingHostCall {
    pub id: u16,
    pub args: Vec<Value>,
}

/// A linked program: flat instructions, the entry pc, the constant pools,
/// the per-pc debug map, and the arity of each registered host function.
#[derive(Debug)]
pub struct Program {
    pub instructions: Vec<VmInstr>,
    pub entry_pc: usize,
    pub constants: ConstantsHolder,
    pub debug: Vec<DebugEntry>,
    pub host_arities: Vec<u16>,
}

/// The whole machine state.
pub struct Vm {
    pub program: Program,
    pub pc: usize,
    pub stack: Vec<Value>,
    pub frames: Vec<Frame>,
    pub heap: Vec<Option<HeapData>>,
    pub pending: Option<PendingHostCall>,
    pub error: Option<RuntimeError>,
    pub done: bool,
}

/// Base of the active frame (0 when executing at top level).
pub open spec fn cur_base(s: Vm) -> int {
    if s.frames@.len() == 0 {
        0
    } else {
        s.frames@.last().base as int
    }
}

/// Operands available to the active frame.
pub open spec fn avail(s: Vm) -> int {
    s.stack@.len() - cur_base(s)
}

/// The trace recorded when an error latches: the debug entry of the
/// instruction the machine was at, if the debug map covers it.
pub open spec fn spec_trace(s: Vm) -> Seq<DebugEntry> {
    if s.pc < s.program.debug@.len() {
        seq![s.program.debug@[s.pc as int]]
    } else {
        Seq::empty()
    }
}

/// An error of kind `k` latched at `s0`: all state frozen, error set.
pub open spec fn latched(s0: Vm, s1: Vm, k: RuntimeErrorKind) -> bool {
    &&& s1.program == s0.program
    &&& s1.pc == s0.pc
    &&& s1.stack@ == s0.stack@
    &&& s1.frames@ == s0.frames@
    &&& s1.heap@ == s0.heap@
    &&& s1.pending == s0.pending
    &&& s1.done == s0.done
    &&& s1.error matches Some(e) && e.kind == k && e.trace@ == spec_trace(s0)
}

/// An ordinary step: stack becomes `st`, pc becomes `p`, all else unchanged.
pub open spec fn norm_step(s0: Vm, s1: Vm, st: Seq<Value>, p: int) -> bool {
    &&& s1.program == s0.program
    &&& s1.frames@ == s0.frames@
    &&& s1.heap@ == s0.heap@
    &&& s1.pending == s0.pending
    &&& s1.error == s0.error
    &&& s1.done == s0.done
    &&& s1.stack@ == st
    &&& s1.pc == p
}

/// Pops `k` operands and pushes `v`; pc advances. The arms of `step_effect`
/// use it only where the operands are known to be available.
pub open spec fn pop_push(s0: Vm, s1: Vm, k: int, v: Value) -> bool {
    norm_step(s0, s1, s0.stack@.take(s0.stack@.len() - k).push(v), s0.pc + 1)
}

/// Pops `k` operands and pushes a string with text `t`; pc advances.
pub open spec fn pop_push_text(s0: Vm, s1: Vm, k: int, t: Seq<char>) -> bool {
    &&& s1.stack@.len() == s0.stack@.len() - k + 1
    &&& s1.stack@.take(s0.stack@.len() - k) == s0.stack@.take(s0.stack@.len() - k)
    &&& s1.stack@.last() matches Value::Str(r) && r@ == t
    &&& s1.program == s0.program
    &&& s1.frames@ == s0.frames@
    &&& s1.heap@ == s0.heap@
    &&& s1.pending == s0.pending
    &&& s1.error == s0.error
    &&& s1.done == s0.done
    &&& s1.pc == s0.pc + 1
}

/// The heaps agree everywhere but at `h`.
pub open spec fn heap_same_except(s0: Vm, s1: Vm, h: int) -> bool {
    &&& s1.heap@.len() == s0.heap@.len()
    &&& forall|j: int| 0 <= j < s0.heap@.len() && j != h ==> s1.heap@[j] == s0.heap@[j]
}

/// A step that allocates one object: the old heap is a prefix of the new.
pub open spec fn heap_grown(s0: Vm, s1: Vm) -> bool {
    &&& s1.heap@.len() == s0.heap@.len() + 1
    &&& forall|j: int| 0 <= j < s0.heap@.len() ==> s1.heap@[j] == s0.heap@[j]
}

/// Everything except the stack and the heap unchanged, pc advanced.
pub open spec fn frames_ctrl_same(s0: Vm, s1: Vm) -> bool {
    &&& s1.program == s0.program
    &&& s1.frames@ == s0.frames@
    &&& s1.pending == s0.pending
    &&& s1.error == s0.error
    &&& s1.done == s0.done
    &&& s1.pc == s0.pc + 1
}

pub open spec fn in_i64(x: int) -> bool {
    i64::MIN <= x <= i64::MAX
}

/// `base` raised to `exp`, over the mathematical integers.
pub open spec fn int_pow(base: int, exp: nat) -> int
    decreases exp,
{
    if exp == 0 {
        1
    } else {
        base * int_pow(base, (exp - 1) as nat)
    }
}

/// Both operands are integers: the effect of an integer binary operator
/// whose mathematical result is `r` (a latched fault when `r` overflows).
pub open spec fn int_arith_effect(s0: Vm, s1: Vm, r: int) -> bool {
    if in_i64(r) {
        pop_push(s0, s1, 2, Value::Int(r as i64))
    } else {
        latched(s0, s1, RuntimeErrorKind::Fault)
    }
}

/// The two top operands as integers, when they are such.
pub open spec fn top2_ints(s0: Vm) -> Option<(i64, i64)> {
    if avail(s0) >= 2 && (s0.stack@[s0.stack@.len() - 2] matches Value::Int(_)) && (
    s0.stack@[s0.stack@.len() - 1] matches Value::Int(_)) {
        match (s0.stack@[s0.stack@.len() - 2], s0.stack@[s0.stack@.len() - 1]) {
            (Value::Int(a), Value::Int(b)) => Some((a, b)),
            _ => None,
        }
    } else {
        None
    }
}

/// Effect of an integer comparison instruction with outcome `b`.
pub open spec fn int_cmp_effect(s0: Vm, s1: Vm, b: bool) -> bool {
    pop_push(s0, s1, 2, Value::Bool(b))
}

pub open spec fn fault(s0: Vm, s1: Vm) -> bool {
    latched(s0, s1, RuntimeErrorKind::Fault)
}

/// The instruction the machine is about to execute.
pub open spec fn cur_instr(s: Vm) -> VmInstr
    recommends
        s.pc < s.program.instructions@.len(),
{
    s.program.instructions@[s.pc as int]
}

/// The transition relation of one interpreter step. `step` is proved to
/// implement exactly this relation.
pub open spec fn step_effect(s0: Vm, s1: Vm) -> bool {
    if s0.done || s0.error is Some || s0.pending is Some {
        s1 == s0
    } else if s0.pc >= s0.program.instructions@.len() {
        fault(s0, s1)
    } else {
        let len = s0.stack@.len() as int;
        match cur_instr(s0) {
            VmInstr::Pop => if avail(s0) >= 1 {
                norm_step(s0, s1, s0.stack@.take(len - 1), s0.pc + 1)
            } else {
                fault(s0, s1)
            },
            VmInstr::Duplicate => if avail(s0) >= 1 {
                pop_push(s0, s1, 0, s0.stack@.last())
            } else {
                fault(s0, s1)
            },
            VmInstr::LoadOffset(k) => {
                let idx = cur_base(s0) + k;
                if 0 <= idx < len {
                    pop_push(s0, s1, 0, s0.stack@[idx])
                } else {
                    fault(s0, s1)
                }
            },
            VmInstr::StoreOffset(k) => {
                let idx = cur_base(s0) + k;
                if avail(s0) >= 1 && 0 <= idx < len - 1 {
                    norm_step(
                        s0,
                        s1,
                        s0.stack@.take(len - 1).update(idx, s0.stack@.last()),
                        s0.pc + 1,
                    )
                } else {
                    fault(s0, s1)
                }
            },
            VmInstr::PushNil(n) => norm_step(
                s0,
                s1,
                s0.stack@ + Seq::new(n as nat, |i: int| Value::Nil),
                s0.pc + 1,
            ),
            VmInstr::PushBool(b) => pop_push(s0, s1, 0, Value::Bool(b)),
            VmInstr::PushInt(id) => if id < s0.program.constants.int_constants@.len() {
                pop_push(s0, s1, 0, Value::Int(s0.program.constants.int_constants@[id as int]))
            } else {
                fault(s0, s1)
            },
            VmInstr::PushFloat(id) => if id < s0.program.constants.float_constants@.len() {
                pop_push(s0, s1, 0, Value::Float(id))
            } else {
                fault(s0, s1)
            },
            VmInstr::PushString(id) => if id < s0.program.constants.string_constants@.len() {
                pop_push_text(s0, s1, 0, s0.program.constants.string_constants@[id as int])
            } else {
                fault(s0, s1)
            },
            VmInstr::AddInt => match top2_ints(s0) {
                Some((a, b)) => int_arith_effect(s0, s1, a + b),
                None => fault(s0, s1),
            },
            VmInstr::SubtractInt => match top2_ints(s0) {
                Some((a, b)) => int_arith_effect(s0, s1, a - b),
                None => fault(s0, s1),
            },
            VmInstr::MultiplyInt => match top2_ints(s0) {
                Some((a, b)) => int_arith_effect(s0, s1, a * b),
                None => fault(s0, s1),
            },
            VmInstr::DivideInt => match top2_ints(s0) {
                Some((a, b)) => if b == 0 {
                    latched(s0, s1, RuntimeErrorKind::DivideByZero)
                } else {
                    int_arith_effect(s0, s1, trunc_div(a as int, b as int))
                },
                None => fault(s0, s1),
            },
            VmInstr::Modulo => match top2_ints(s0) {
                Some((a, b)) => if b == 0 {
                    latched(s0, s1, RuntimeErrorKind::DivideByZero)
                } else {
                    int_arith_effect(s0, s1, trunc_mod(a as int, b as int))
                },
                None => fault(s0, s1),
            },
            VmInstr::PowerInt => match top2_ints(s0) {
                Some((a, b)) => if b < 0 {
                    fault(s0, s1)
                } else {
                    ||| pop_push(s0, s1, 2, Value::Int(int_pow(a as int, b as nat) as i64))
                        && in_i64(int_pow(a as int, b as nat))
                    ||| fault(s0, s1)
                },
                None => fault(s0, s1),
            },
            VmInstr::LessThanInt => match top2_ints(s0) {
                Some((a, b)) => int_cmp_effect(s0, s1, a < b),
                None => fault(s0, s1),
            },
            VmInstr::LessThanOrEqualInt => match top2_ints(s0) {
                Some((a, b)) => int_cmp_effect(s0, s1, a <= b),
                None => fault(s0, s1),
            },
            VmInstr::GreaterThanInt => match top2_ints(s0) {
                Some((a, b)) => int_cmp_effect(s0, s1, a > b),
                None => fault(s0, s1),
            },
            VmInstr::GreaterThanOrEqualInt => match top2_ints(s0) {
                Some((a, b)) => int_cmp_effect(s0, s1, a >= b),
                None => fault(s0, s1),
            },
            VmInstr::EqualInt => match top2_ints(s0) {
                Some((a, b)) => int_cmp_effect(s0, s1, a == b),
                None => fault(s0, s1),
            },
            VmInstr::EqualBool => if avail(s0) >= 2 && (s0.stack@[len - 2] matches Value::Bool(_))
                && (s0.stack@[len - 1] matches Value::Bool(_)) {
                match (s0.stack@[len - 2], s0.stack@[len - 1]) {
                    (Value::Bool(a), Value::Bool(b)) => pop_push(s0, s1, 2, Value::Bool(a == b)),
                    _ => false,
                }
            } else {
                fault(s0, s1)
            },
            VmInstr::EqualString => if avail(s0) >= 2 && (s0.stack@[len - 2] matches Value::Str(_))
                && (s0.stack@[len - 1] matches Value::Str(_)) {
                match (s0.stack@[len - 2], s0.stack@[len - 1]) {
                    (Value::Str(a), Value::Str(b)) => pop_push(s0, s1, 2, Value::Bool(a@ == b@)),
                    _ => false,
                }
            } else {
                fault(s0, s1)
            },
            VmInstr::ConcatStrings => if avail(s0) >= 2 && (s0.stack@[len - 2] matches Value::Str(
                _,
            )) && (s0.stack@[len - 1] matches Value::Str(_)) {
                match (s0.stack@[len - 2], s0.stack@[len - 1]) {
                    (Value::Str(a), Value::Str(b)) => pop_push_text(s0, s1, 2, a@ + b@),
                    _ => false,
                }
            } else {
                fault(s0, s1)
            },
            VmInstr::IntToString => if avail(s0) >= 1 && (s0.stack@[len - 1] matches Value::Int(_)) {
                match s0.stack@[len - 1] {
                    Value::Int(a) => pop_push_text(s0, s1, 1, dec_rep(a as int)),
                    _ => false,
                }
            } else {
                fault(s0, s1)
            },
            VmInstr::FloatToString => if avail(s0) >= 1 && (s0.stack@[len - 1]
                matches Value::Float(id) && id < s0.program.constants.float_constants@.len()) {
                match s0.stack@[len - 1] {
                    Value::Float(id) => pop_push_text(
                        s0,
                        s1,
                        1,
                        s0.program.constants.float_constants@[id as int],
                    ),
                    _ => false,
                }
            } else {
                fault(s0, s1)
            },
            VmInstr::Not => if avail(s0) >= 1 && (s0.stack@[len - 1] matches Value::Bool(_)) {
                match s0.stack@[len - 1] {
                    Value::Bool(a) => pop_push(s0, s1, 1, Value::Bool(!a)),
                    _ => false,
                }
            } else {
                fault(s0, s1)
            },
            VmInstr::And => if avail(s0) >= 2 && (s0.stack@[len - 2] matches Value::Bool(_)) && (
            s0.stack@[len - 1] matches Value::Bool(_)) {
                match (s0.stack@[len - 2], s0.stack@[len - 1]) {
                    (Value::Bool(a), Value::Bool(b)) => pop_push(s0, s1, 2, Value::Bool(a && b)),
                    _ => false,
                }
            } else {
                fault(s0, s1)
            },
            VmInstr::Or => if avail(s0) >= 2 && (s0.stack@[len - 2] matches Value::Bool(_)) && (
            s0.stack@[len - 1] matches Value::Bool(_)) {
                match (s0.stack@[len - 2], s0.stack@[len - 1]) {
                    (Value::Bool(a), Value::Bool(b)) => pop_push(s0, s1, 2, Value::Bool(a || b)),
                    _ => false,
                }
            } else {
                fault(s0, s1)
            },
            VmInstr::AddFloat => fault(s0, s1),
            VmInstr::SubtractFloat => fault(s0, s1),
            VmInstr::MultiplyFloat => fault(s0, s1),
            VmInstr::DivideFloat => fault(s0, s1),
            VmInstr::PowerFloat => fault(s0, s1),
            VmInstr::SquareRoot => fault(s0, s1),
            VmInstr::LessThanFloat => fault(s0, s1),
            VmInstr::LessThanOrEqualFloat => fault(s0, s1),
            VmInstr::GreaterThanFloat => fault(s0, s1),
            VmInstr::GreaterThanOrEqualFloat => fault(s0, s1),
            VmInstr::EqualFloat => fault(s0, s1),
            VmInstr::Jump(t) => norm_step(s0, s1, s0.stack@, t as int),
            VmInstr::JumpIf(t) => if avail(s0) >= 1 && (s0.stack@[len - 1] matches Value::Bool(_)) {
                match s0.stack@[len - 1] {
                    Value::Bool(b) => norm_step(
                        s0,
                        s1,
                        s0.stack@.take(len - 1),
                        if b {
                            t as int
                        } else {
                            s0.pc + 1
                        },
                    ),
                    _ => false,
                }
            } else {
                fault(s0, s1)
            },
            VmInstr::Call { nargs, target } => if nargs as int <= avail(s0) {
                &&& s1.program == s0.program
                &&& s1.stack@ == s0.stack@
                &&& s1.heap@ == s0.heap@
                &&& s1.pending == s0.pending
                &&& s1.error == s0.error
                &&& s1.done == s0.done
                &&& s1.frames@ == s0.frames@.push(
                    Frame {
                        return_pc: (s0.pc + 1) as usize,
                        base: s0.stack@.len() as usize,
                        nargs,
                    },
                )
                &&& s1.pc == target
            } else {
                fault(s0, s1)
            },
            VmInstr::CallFuncObj => if avail(s0) >= 1 && (s0.stack@[len - 1]
                matches Value::Closure(h) && 0 <= h < s0.heap@.len() && (s0.heap@[h as int]
                matches Some(HeapData::ClosureObj { .. }))) {
                match s0.stack@[len - 1] {
                    Value::Closure(h) => match s0.heap@[h as int] {
                        Some(HeapData::ClosureObj { code, env }) => if env@.len() <= u32::MAX {
                            &&& s1.program == s0.program
                            &&& s1.heap@ == s0.heap@
                            &&& s1.pending == s0.pending
                            &&& s1.error == s0.error
                            &&& s1.done == s0.done
                            &&& s1.stack@ == s0.stack@.take(len - 1) + env@
                            &&& s1.frames@ == s0.frames@.push(
                                Frame {
                                    return_pc: (s0.pc + 1) as usize,
                                    base: (len - 1 + env@.len()) as usize,
                                    nargs: env@.len() as u32,
                                },
                            )
                            &&& s1.pc == code
                        } else {
                            fault(s0, s1)
                        },
                        _ => false,
                    },
                    _ => false,
                }
            } else {
                fault(s0, s1)
            },
            VmInstr::Return(n) => if s0.frames@.len() >= 1 && avail(s0) >= 1 && ({
                let base = s0.frames@.last().base as int;
                let prev = if s0.frames@.len() >= 2 {
                    s0.frames@[s0.frames@.len() - 2].base as int
                } else {
                    0
                };
                base - n >= prev
            }) {
                let base = s0.frames@.last().base as int;
                &&& s1.program == s0.program
                &&& s1.heap@ == s0.heap@
                &&& s1.pending == s0.pending
                &&& s1.error == s0.error
                &&& s1.done == s0.done
                &&& s1.stack@ == s0.stack@.take(base - n).push(s0.stack@.last())
                &&& s1.frames@ == s0.frames@.drop_last()
                &&& s1.pc == s0.frames@.last().return_pc
            } else {
                fault(s0, s1)
            },
            VmInstr::Stop => {
                &&& s1.program == s0.program
                &&& s1.pc == s0.pc
                &&& s1.stack@ == s0.stack@
                &&& s1.frames@ == s0.frames@
                &&& s1.heap@ == s0.heap@
                &&& s1.pending == s0.pending
                &&& s1.error == s0.error
                &&& s1.done
            },
            VmInstr::HostFunc(id) => if id < s0.program.host_arities@.len() && s0.program.host_arities@[id as int] as int
                <= avail(s0) {
                let arity = s0.program.host_arities@[id as int] as int;
                &&& s1.program == s0.program
                &&& s1.pc == s0.pc
                &&& s1.stack@ == s0.stack@.take(len - arity)
                &&& s1.frames@ == s0.frames@
                &&& s1.heap@ == s0.heap@
                &&& s1.error == s0.error
                &&& s1.done == s0.done
                &&& s1.pending matches Some(p) && p.id == id && p.args@ == s0.stack@.subrange(
                    len - arity,
                    len,
                )
            } else {
                fault(s0, s1)
            },
            VmInstr::Panic => if avail(s0) >= 1 && (s0.stack@[len - 1] matches Value::Str(_)) {
                match s0.stack@[len - 1] {
                    Value::Str(m) => {
                        &&& s1.program == s0.program
                        &&& s1.pc == s0.pc
                        &&& s1.stack@ == s0.stack@.take(len - 1)
                        &&& s1.frames@ == s0.frames@
                        &&& s1.heap@ == s0.heap@
                        &&& s1.pending == s0.pending
                        &&& s1.done == s0.done
                        &&& s1.error matches Some(e) && (e.kind matches RuntimeErrorKind::Panic(pm)
                            && pm@ == m@) && e.trace@ == spec_trace(s0)
                    },
                    _ => false,
                }
            } else {
                fault(s0, s1)
            },
            VmInstr::CallExtern(_) => latched(s0, s1, RuntimeErrorKind::LinkError),
            VmInstr::LoadLib => latched(s0, s1, RuntimeErrorKind::LinkError),
            VmInstr::LoadForeignFunc => latched(s0, s1, RuntimeErrorKind::LinkError),
            VmInstr::ConstructStruct(n) => if avail(s0) >= n as int {
                &&& heap_grown(s0, s1)
                &&& s1.heap@.last() matches Some(HeapData::StructObj(fs)) && fs@
                    == s0.stack@.subrange(len - n as int, len)
                &&& s1.stack@ == s0.stack@.take(len - n as int).push(
                    Value::Struct(s0.heap@.len() as usize),
                )
                &&& frames_ctrl_same(s0, s1)
            } else {
                fault(s0, s1)
            },
            VmInstr::ConstructArray(n) => if avail(s0) >= n as int {
                &&& heap_grown(s0, s1)
                &&& s1.heap@.last() matches Some(HeapData::ArrayObj(vs)) && vs@
                    == s0.stack@.subrange(len - n as int, len)
                &&& s1.stack@ == s0.stack@.take(len - n as int).push(
                    Value::Array(s0.heap@.len() as usize),
                )
                &&& frames_ctrl_same(s0, s1)
            } else {
                fault(s0, s1)
            },
            VmInstr::ConstructVariant { tag } => if avail(s0) >= 1 {
                &&& heap_grown(s0, s1)
                &&& s1.heap@.last() matches Some(HeapData::VariantObj(t, p)) && t == tag && p
                    == s0.stack@.last()
                &&& s1.stack@ == s0.stack@.take(len - 1).push(
                    Value::Variant(s0.heap@.len() as usize),
                )
                &&& frames_ctrl_same(s0, s1)
            } else {
                fault(s0, s1)
            },
            VmInstr::DeconstructStruct => if avail(s0) >= 1 && (s0.stack@[len - 1]
                matches Value::Struct(h) && 0 <= h < s0.heap@.len() && (s0.heap@[h as int]
                matches Some(HeapData::StructObj(_)))) {
                match s0.stack@[len - 1] {
                    Value::Struct(h) => match s0.heap@[h as int] {
                        Some(HeapData::StructObj(fs)) => {
                            &&& norm_step(s0, s1, s0.stack@.take(len - 1) + fs@, s0.pc + 1)
                        },
                        _ => false,
                    },
                    _ => false,
                }
            } else {
                fault(s0, s1)
            },
            VmInstr::DeconstructVariant => if avail(s0) >= 1 && (s0.stack@[len - 1]
                matches Value::Variant(h) && 0 <= h < s0.heap@.len() && (s0.heap@[h as int]
                matches Some(HeapData::VariantObj(_, _)))) {
                match s0.stack@[len - 1] {
                    Value::Variant(h) => match s0.heap@[h as int] {
                        Some(HeapData::VariantObj(t, p)) => norm_step(
                            s0,
                            s1,
                            s0.stack@.take(len - 1).push(Value::Int(t as i64)).push(p),
                            s0.pc + 1,
                        ),
                        _ => false,
                    },
                    _ => false,
                }
            } else {
                fault(s0, s1)
            },
            VmInstr::GetField(i) => if avail(s0) >= 1 && (s0.stack@[len - 1]
                matches Value::Struct(h) && 0 <= h < s0.heap@.len() && (s0.heap@[h as int]
                matches Some(HeapData::StructObj(fs)) && i < fs@.len())) {
                match s0.stack@[len - 1] {
                    Value::Struct(h) => match s0.heap@[h as int] {
                        Some(HeapData::StructObj(fs)) => pop_push(s0, s1, 1, fs@[i as int]),
                        _ => false,
                    },
                    _ => false,
                }
            } else {
                fault(s0, s1)
            },
            VmInstr::SetField(i) => if avail(s0) >= 2 && (s0.stack@[len - 1]
                matches Value::Struct(h) && 0 <= h < s0.heap@.len() && (s0.heap@[h as int]
                matches Some(HeapData::StructObj(fs)) && i < fs@.len())) {
                match s0.stack@[len - 1] {
                    Value::Struct(h) => match s0.heap@[h as int] {
                        Some(HeapData::StructObj(fs)) => {
                            &&& heap_same_except(s0, s1, h as int)
                            &&& s1.heap@[h as int] matches Some(HeapData::StructObj(fs1)) && fs1@
                                == fs@.update(i as int, s0.stack@[len - 2])
                            &&& s1.stack@ == s0.stack@.take(len - 2)
                            &&& frames_ctrl_same(s0, s1)
                        },
                        _ => false,
                    },
                    _ => false,
                }
            } else {
                fault(s0, s1)
            },
            VmInstr::GetIdx => if avail(s0) >= 2 && (s0.stack@[len - 1] matches Value::Int(_)) && (
            s0.stack@[len - 2] matches Value::Array(h) && 0 <= h < s0.heap@.len() && (s0.heap@[h as int]
                matches Some(HeapData::ArrayObj(_)))) {
                match (s0.stack@[len - 2], s0.stack@[len - 1]) {
                    (Value::Array(h), Value::Int(idx)) => match s0.heap@[h as int] {
                        Some(HeapData::ArrayObj(vs)) => if 0 <= idx < vs@.len() {
                            pop_push(s0, s1, 2, vs@[idx as int])
                        } else {
                            latched(s0, s1, RuntimeErrorKind::IndexOutOfBounds)
                        },
                        _ => false,
                    },
                    _ => false,
                }
            } else {
                fault(s0, s1)
            },
            VmInstr::SetIdx => if avail(s0) >= 3 && (s0.stack@[len - 1] matches Value::Int(_)) && (
            s0.stack@[len - 2] matches Value::Array(h) && 0 <= h < s0.heap@.len() && (s0.heap@[h as int]
                matches Some(HeapData::ArrayObj(_)))) {
                match (s0.stack@[len - 2], s0.stack@[len - 1]) {
                    (Value::Array(h), Value::Int(idx)) => match s0.heap@[h as int] {
                        Some(HeapData::ArrayObj(vs)) => if 0 <= idx < vs@.len() {
                            &&& heap_same_except(s0, s1, h as int)
                            &&& s1.heap@[h as int] matches Some(HeapData::ArrayObj(vs1)) && vs1@
                                == vs@.update(idx as int, s0.stack@[len - 3])
                            &&& s1.stack@ == s0.stack@.take(len - 3)
                            &&& frames_ctrl_same(s0, s1)
                        } else {
                            latched(s0, s1, RuntimeErrorKind::IndexOutOfBounds)
                        },
                        _ => false,
                    },
                    _ => false,
                }
            } else {
                fault(s0, s1)
            },
            VmInstr::MakeClosure { func_addr } => if avail(s0) >= 1 && (s0.stack@[len - 1]
                matches Value::Array(h) && 0 <= h < s0.heap@.len() && (s0.heap@[h as int]
                matches Some(HeapData::ArrayObj(_)))) {
                match s0.stack@[len - 1] {
                    Value::Array(h) => match s0.heap@[h as int] {
                        Some(HeapData::ArrayObj(vs)) => {
                            &&& heap_grown(s0, s1)
                            &&& s1.heap@.last() matches Some(HeapData::ClosureObj { code, env })
                                && code == func_addr && env@ == vs@
                            &&& s1.stack@ == s0.stack@.take(len - 1).push(
                                Value::Closure(s0.heap@.len() as usize),
                            )
                            &&& frames_ctrl_same(s0, s1)
                        },
                        _ => false,
                    },
                    _ => false,
                }
            } else {
                fault(s0, s1)
            },
            VmInstr::ArrayAppend => if avail(s0) >= 2 && (s0.stack@[len - 2]
                matches Value::Array(h) && 0 <= h < s0.heap@.len() && (s0.heap@[h as int]
                matches Some(HeapData::ArrayObj(_)))) {
                match s0.stack@[len - 2] {
                    Value::Array(h) => match s0.heap@[h as int] {
                        Some(HeapData::ArrayObj(vs)) => {
                            &&& heap_same_except(s0, s1, h as int)
                            &&& s1.heap@[h as int] matches Some(HeapData::ArrayObj(vs1)) && vs1@
                                == vs@.push(s0.stack@[len - 1])
                            &&& s1.stack@ == s0.stack@.take(len - 2).push(Value::Nil)
                            &&& frames_ctrl_same(s0, s1)
                        },
                        _ => false,
                    },
                    _ => false,
                }
            } else {
                fault(s0, s1)
            },
            VmInstr::ArrayLength => if avail(s0) >= 1 && (s0.stack@[len - 1]
                matches Value::Array(h) && 0 <= h < s0.heap@.len() && (s0.heap@[h as int]
                matches Some(HeapData::ArrayObj(_)))) {
                match s0.stack@[len - 1] {
                    Value::Array(h) => match s0.heap@[h as int] {
                        Some(HeapData::ArrayObj(vs)) => if vs@.len() <= i64::MAX {
                            pop_push(s0, s1, 1, Value::Int(vs@.len() as i64))
                        } else {
                            fault(s0, s1)
                        },
                        _ => false,
                    },
                    _ => false,
                }
            } else {
                fault(s0, s1)
            },
            VmInstr::ArrayPop => if avail(s0) >= 1 && (s0.stack@[len - 1] matches Value::Array(h)
                && 0 <= h < s0.heap@.len() && (s0.heap@[h as int] matches Some(
                HeapData::ArrayObj(_),
            ))) {
                match s0.stack@[len - 1] {
                    Value::Array(h) => match s0.heap@[h as int] {
                        Some(HeapData::ArrayObj(vs)) => if vs@.len() >= 1 {
                            &&& heap_same_except(s0, s1, h as int)
                            &&& s1.heap@[h as int] matches Some(HeapData::ArrayObj(vs1)) && vs1@
                                == vs@.drop_last()
                            &&& s1.stack@ == s0.stack@.take(len - 1).push(Value::Nil)
                            &&& frames_ctrl_same(s0, s1)
                        } else {
                            latched(s0, s1, RuntimeErrorKind::IndexOutOfBounds)
                        },
                        _ => false,
                    },
                    _ => false,
                }
            } else {
                fault(s0, s1)
            },
        }
    }
}

/// `a` raised to `b` when that fits an `i64` (`None` when the computation
/// overflows on the way).
fn int_pow_exec(a: i64, b: i64) -> (r: Option<i64>)
    requires
        b >= 0,
    ensures
        r matches Some(v) ==> v as int == int_pow(a as int, b as nat) && in_i64(
            int_pow(a as int, b as nat),
        ),
{
    let bu = b as u64;
    let mut acc: i64 = 1;
    let mut i: u64 = 0;
    while i < bu
        invariant
            i <= bu,
            acc as int == int_pow(a as int, i as nat),
        decreases bu - i,
    {
        proof {
            assert((acc as int) * (a as int) <= i128::MAX && i128::MIN <= (acc as int) * (
            a as int)) by (nonlinear_arith)
                requires
                    i64::MIN <= acc <= i64::MAX,
                    i64::MIN <= a <= i64::MAX,
            ;
        }
        let p = acc as i128 * a as i128;
        if p < i64::MIN as i128 || p > i64::MAX as i128 {
            return None;
        }
        proof {
            assert(int_pow(a as int, (i + 1) as nat) == (a as int) * int_pow(a as int, i as nat));
            assert((a as int) * (acc as int) == (acc as int) * (a as int));
        }
        acc = p as i64;
        i += 1;
    }
    Some(acc)
}

/// Clones a vector of values, element by element.
fn clone_values(vs: &Vec<Value>) -> (r: Vec<Value>)
    ensures
        r@ == vs@,
{
    let mut r: Vec<Value> = Vec::new();
    let mut i: usize = 0;
    while i < vs.len()
        invariant
            i <= vs@.len(),
            r@ == vs@.take(i as int),
        decreases vs@.len() - i,
    {
        r.push(vs[i].clone());
        assert(r@ =~= vs@.take(i + 1));
        i += 1;
    }
    assert(r@ =~= vs@);
    r
}

impl Vm {
    /// A fresh machine at the program's entry point.
    pub fn new(program: Program) -> (r: Vm)
        ensures
            r.program == program,
            r.pc == program.entry_pc,
            r.stack@ == Seq::<Value>::empty(),
            r.frames@ == Seq::<Frame>::empty(),
            r.heap@ == Seq::<Option<HeapData>>::empty(),
            r.pending is None,
            r.error is None,
            !r.done,
    {
        let pc = program.entry_pc;
        Vm {
            program,
            pc,
            stack: Vec::new(),
            frames: Vec::new(),
            heap: Vec::new(),
            pending: None,
            error: None,
            done: false,
        }
    }

    fn base(&self) -> (r: usize)
        ensures
            r as int == cur_base(*self),
    {
        if self.frames.len() == 0 {
            0
        } else {
            self.frames[self.frames.len() - 1].base
        }
    }

    fn has_operands(&self, k: usize) -> (r: bool)
        ensures
            r == (avail(*self) >= k as int),
    {
        let base = self.base();
        self.stack.len() >= k && self.stack.len() - k >= base
    }

    /// Latches an error of the given kind at the current location.
    fn latch(&mut self, kind: RuntimeErrorKind)
        ensures
            final(self).program == old(self).program,
            final(self).pc == old(self).pc,
            final(self).stack@ == old(self).stack@,
            final(self).frames@ == old(self).frames@,
            final(self).heap@ == old(self).heap@,
            final(self).pending == old(self).pending,
            final(self).done == old(self).done,
            final(self).error matches Some(e) && e.kind == kind && e.trace@ == spec_trace(
                *old(self),
            ),
    {
        let mut trace: Vec<DebugEntry> = Vec::new();
        if self.pc < self.program.debug.len() {
            trace.push(self.program.debug[self.pc]);
        }
        assert(trace@ =~= spec_trace(*self));
        self.error = Some(RuntimeError { kind, trace });
    }

    /// Pops `n` operands and pushes `v`, leaving the pc alone.
    fn popn_push(&mut self, n: usize, v: Value)
        requires
            n <= old(self).stack@.len(),
        ensures
            final(self).stack@ == old(self).stack@.take(old(self).stack@.len() - n).push(v),
            final(self).program == old(self).program,
            final(self).pc == old(self).pc,
            final(self).frames@ == old(self).frames@,
            final(self).heap@ == old(self).heap@,
            final(self).pending == old(self).pending,
            final(self).error == old(self).error,
            final(self).done == old(self).done,
    {
        let newlen = self.stack.len() - n;
        self.stack.truncate(newlen);
        self.stack.push(v);
    }

    #[verifier::rlimit(100)]
    /// One interpreter tick: executes the instruction at the pc, exactly as
    /// `step_effect` describes. Total: every ill-formed situation latches an
    /// error rather than failing.
    pub fn step(&mut self)
        ensures
            step_effect(*old(self), *final(self)),
    {
        if self.done || self.error.is_some() || self.pending.is_some() {
            return ;
        }
        if self.pc >= self.program.instructions.len() {
            self.latch(RuntimeErrorKind::Fault);
            return ;
        }
        let instr = self.program.instructions[self.pc];
        let len = self.stack.len();
        match instr {
            VmInstr::Pop => {
                if !self.has_operands(1) {
                    self.latch(RuntimeErrorKind::Fault);
                    return ;
                }
                self.stack.pop();
                self.pc = self.pc + 1;
            },
            VmInstr::Duplicate => {
                if !self.has_operands(1) {
                    self.latch(RuntimeErrorKind::Fault);
                    return ;
                }
                let v = self.stack[len - 1].clone();
                self.stack.push(v);
                assert(self.stack@ =~= old(self).stack@.take(len as int).push(old(self).stack@.last()));
                self.pc = self.pc + 1;
            },
            VmInstr::LoadOffset(k) => {
                let base = self.base();
                let idx_i = base as i128 + k as i128;
                if idx_i < 0 || idx_i >= len as i128 {
                    self.latch(RuntimeErrorKind::Fault);
                    return ;
                }
                let idx = idx_i as usize;
                let v = self.stack[idx].clone();
                self.stack.push(v);
                assert(self.stack@ =~= old(self).stack@.take(len as int).push(old(self).stack@[idx as int]));
                self.pc = self.pc + 1;
            },
            VmInstr::StoreOffset(k) => {
                let base = self.base();
                let idx_i = base as i128 + k as i128;
                if !self.has_operands(1) || idx_i < 0 || idx_i >= (len - 1) as i128 {
                    self.latch(RuntimeErrorKind::Fault);
                    return ;
                }
                let idx = idx_i as usize;
                let v = self.stack.pop().unwrap();
                self.stack[idx] = v;
                self.pc = self.pc + 1;
            },
            VmInstr::PushNil(n) => {
                let mut i: usize = 0;
                while i < n as usize
                    invariant
                        i <= n as usize,
                        self.stack@ == old(self).stack@ + Seq::new(
                            i as nat,
                            |j: int| Value::Nil,
                        ),
                        self.program == old(self).program,
                        self.frames@ == old(self).frames@,
                        self.heap@ == old(self).heap@,
                        self.pending == old(self).pending,
                        self.error == old(self).error,
                        self.done == old(self).done,
                        self.pc == old(self).pc,
                    decreases n as int - i,
                {
                    self.stack.push(Value::Nil);
                    assert(self.stack@ =~= old(self).stack@ + Seq::new(
                        (i + 1) as nat,
                        |j: int| Value::Nil,
                    ));
                    i += 1;
                }
                self.pc = self.pc + 1;
            },
            VmInstr::PushBool(b) => {
                self.stack.push(Value::Bool(b));
                assert(self.stack@ =~= old(self).stack@.take(len as int).push(Value::Bool(b)));
                self.pc = self.pc + 1;
            },
            VmInstr::PushInt(id) => {
                if !((id as usize) < self.program.constants.int_constants.len()) {
                    self.latch(RuntimeErrorKind::Fault);
                    return ;
                }
                let v = self.program.constants.int_constants.get(id);
                self.stack.push(Value::Int(v));
                assert(self.stack@ =~= old(self).stack@.take(len as int).push(Value::Int(v)));
                self.pc = self.pc + 1;
            },
            VmInstr::PushFloat(id) => {
                if !((id as usize) < self.program.constants.float_constants.len()) {
                    self.latch(RuntimeErrorKind::Fault);
                    return ;
                }
                self.stack.push(Value::Float(id));
                assert(self.stack@ =~= old(self).stack@.take(len as int).push(Value::Float(id)));
                self.pc = self.pc + 1;
            },
            VmInstr::PushString(id) => {
                if !((id as usize) < self.program.constants.string_constants.len()) {
                    self.latch(RuntimeErrorKind::Fault);
                    return ;
                }
                let s = self.program.constants.string_constants.get(id).clone();
                self.stack.push(Value::Str(s));
                assert(self.stack@.take(len as int) =~= old(self).stack@.take(len as int));
                self.pc = self.pc + 1;
            },
            VmInstr::AddInt => {
                match self.take_int2() {
                    Some((a, b)) => {
                        let r = a as i128 + b as i128;
                        self.finish_arith(r);
                    },
                    None => {
                        self.latch(RuntimeErrorKind::Fault);
                    },
                }
            },
            VmInstr::SubtractInt => {
                match self.take_int2() {
                    Some((a, b)) => {
                        let r = a as i128 - b as i128;
                        self.finish_arith(r);
                    },
                    None => {
                        self.latch(RuntimeErrorKind::Fault);
                    },
                }
            },
            VmInstr::MultiplyInt => {
                match self.take_int2() {
                    Some((a, b)) => {
                        proof {
                            assert((a as int) * (b as int) <= i128::MAX && i128::MIN <= (a as int)
                                * (b as int)) by (nonlinear_arith)
                                requires
                                    i64::MIN <= a <= i64::MAX,
                                    i64::MIN <= b <= i64::MAX,
                            ;
                        }
                        let r = a as i128 * b as i128;
                        self.finish_arith(r);
                    },
                    None => {
                        self.latch(RuntimeErrorKind::Fault);
                    },
                }
            },
            VmInstr::DivideInt => {
                match self.take_int2() {
                    Some((a, b)) => {
                        if b == 0 {
                            self.latch(RuntimeErrorKind::DivideByZero);
                            return ;
                        }
                        let ua = abs_u128(a);
                        let ub = abs_u128(b);
                        let q = ua / ub;
                        let r: i128 = if (a < 0) == (b < 0) {
                            q as i128
                        } else {
                            -(q as i128)
                        };
                        assert(r == trunc_div(a as int, b as int));
                        self.finish_arith(r);
                    },
                    None => {
                        self.latch(RuntimeErrorKind::Fault);
                    },
                }
            },
            VmInstr::Modulo => {
                match self.take_int2() {
                    Some((a, b)) => {
                        if b == 0 {
                            self.latch(RuntimeErrorKind::DivideByZero);
                            return ;
                        }
                        let ua = abs_u128(a);
                        let ub = abs_u128(b);
                        let m = ua % ub;
                        let r: i128 = if a < 0 {
                            -(m as i128)
                        } else {
                            m as i128
                        };
                        assert(r == trunc_mod(a as int, b as int));
                        self.finish_arith(r);
                    },
                    None => {
                        self.latch(RuntimeErrorKind::Fault);
                    },
                }
            },
            VmInstr::PowerInt => {
                match self.take_int2() {
                    Some((a, b)) => {
                        if b < 0 {
                            self.latch(RuntimeErrorKind::Fault);
                            return ;
                        }
                        match int_pow_exec(a, b) {
                            Some(v) => {
                                self.popn_push(2, Value::Int(v));
                                self.pc = self.pc + 1;
                            },
                            None => {
                                self.latch(RuntimeErrorKind::Fault);
                            },
                        }
                    },
                    None => {
                        self.latch(RuntimeErrorKind::Fault);
                    },
                }
            },
            VmInstr::LessThanInt => {
                match self.take_int2() {
                    Some((a, b)) => {
                        self.popn_push(2, Value::Bool(a < b));
                        self.pc = self.pc + 1;
                    },
                    None => {
                        self.latch(RuntimeErrorKind::Fault);
                    },
                }
            },
            VmInstr::LessThanOrEqualInt => {
                match self.take_int2() {
                    Some((a, b)) => {
                        self.popn_push(2, Value::Bool(a <= b));
                        self.pc = self.pc + 1;
                    },
                    None => {
                        self.latch(RuntimeErrorKind::Fault);
                    },
                }
            },
            VmInstr::GreaterThanInt => {
                match self.take_int2() {
                    Some((a, b)) => {
                        self.popn_push(2, Value::Bool(a > b));
                        self.pc = self.pc + 1;
                    },
                    None => {
                        self.latch(RuntimeErrorKind::Fault);
                    },
                }
            },
            VmInstr::GreaterThanOrEqualInt => {
                match self.take_int2() {
                    Some((a, b)) => {
                        self.popn_push(2, Value::Bool(a >= b));
                        self.pc = self.pc + 1;
                    },
                    None => {
                        self.latch(RuntimeErrorKind::Fault);
                    },
                }
            },
            VmInstr::EqualInt => {
                match self.take_int2() {
                    Some((a, b)) => {
                        self.popn_push(2, Value::Bool(a == b));
                        self.pc = self.pc + 1;
                    },
                    None => {
                        self.latch(RuntimeErrorKind::Fault);
                    },
                }
            },
            VmInstr::EqualBool => {
                if !self.has_operands(2) {
                    self.latch(RuntimeErrorKind::Fault);
                    return ;
                }
                let va = self.stack[len - 2].clone();
                let vb = self.stack[len - 1].clone();
                match (va, vb) {
                    (Value::Bool(a), Value::Bool(b)) => {
                        self.popn_push(2, Value::Bool(a == b));
                        self.pc = self.pc + 1;
                    },
                    _ => {
                        self.latch(RuntimeErrorKind::Fault);
                    },
                }
            },
            VmInstr::EqualString => {
                if !self.has_operands(2) {
                    self.latch(RuntimeErrorKind::Fault);
                    return ;
                }
                let va = self.stack[len - 2].clone();
                let vb = self.stack[len - 1].clone();
                match (va, vb) {
                    (Value::Str(a), Value::Str(b)) => {
                        let eq = a == b;
                        self.popn_push(2, Value::Bool(eq));
                        self.pc = self.pc + 1;
                    },
                    _ => {
                        self.latch(RuntimeErrorKind::Fault);
                    },
                }
            },
            VmInstr::ConcatStrings => {
                if !self.has_operands(2) {
                    self.latch(RuntimeErrorKind::Fault);
                    return ;
                }
                let va = self.stack[len - 2].clone();
                let vb = self.stack[len - 1].clone();
                match (va, vb) {
                    (Value::Str(a), Value::Str(b)) => {
                        let mut r = a;
                        r.append(b.as_str());
                        self.popn_push(2, Value::Str(r));
                        assert(self.stack@.take(len - 2) =~= old(self).stack@.take(len - 2));
                        self.pc = self.pc + 1;
                    },
                    _ => {
                        self.latch(RuntimeErrorKind::Fault);
                    },
                }
            },
            VmInstr::IntToString => {
                if !self.has_operands(1) {
                    self.latch(RuntimeErrorKind::Fault);
                    return ;
                }
                let va = self.stack[len - 1].clone();
                match va {
                    Value::Int(a) => {
                        let s = i64_to_decimal(a);
                        self.popn_push(1, Value::Str(s));
                        assert(self.stack@.take(len - 1) =~= old(self).stack@.take(len - 1));
                        self.pc = self.pc + 1;
                    },
                    _ => {
                        self.latch(RuntimeErrorKind::Fault);
                    },
                }
            },
            VmInstr::FloatToString => {
                if !self.has_operands(1) {
                    self.latch(RuntimeErrorKind::Fault);
                    return ;
                }
                let va = self.stack[len - 1].clone();
                match va {
                    Value::Float(id) => {
                        if !((id as usize) < self.program.constants.float_constants.len()) {
                            self.latch(RuntimeErrorKind::Fault);
                            return ;
                        }
                        let s = self.program.constants.float_constants.get(id).clone();
                        self.popn_push(1, Value::Str(s));
                        assert(self.stack@.take(len - 1) =~= old(self).stack@.take(len - 1));
                        self.pc = self.pc + 1;
                    },
                    _ => {
                        self.latch(RuntimeErrorKind::Fault);
                    },
                }
            },
            VmInstr::Not => {
                if !self.has_operands(1) {
                    self.latch(RuntimeErrorKind::Fault);
                    return ;
                }
                let va = self.stack[len - 1].clone();
                match va {
                    Value::Bool(a) => {
                        self.popn_push(1, Value::Bool(!a));
                        self.pc = self.pc + 1;
                    },
                    _ => {
                        self.latch(RuntimeErrorKind::Fault);
                    },
                }
            },
            VmInstr::And => {
                if !self.has_operands(2) {
                    self.latch(RuntimeErrorKind::Fault);
                    return ;
                }
                let va = self.stack[len - 2].clone();
                let vb = self.stack[len - 1].clone();
                match (va, vb) {
                    (Value::Bool(a), Value::Bool(b)) => {
                        self.popn_push(2, Value::Bool(a && b));
                        self.pc = self.pc + 1;
                    },
                    _ => {
                        self.latch(RuntimeErrorKind::Fault);
                    },
                }
            },
            VmInstr::Or => {
                if !self.has_operands(2) {
                    self.latch(RuntimeErrorKind::Fault);
                    return ;
                }
                let va = self.stack[len - 2].clone();
                let vb = self.stack[len - 1].clone();
                match (va, vb) {
                    (Value::Bool(a), Value::Bool(b)) => {
                        self.popn_push(2, Value::Bool(a || b));
                        self.pc = self.pc + 1;
                    },
                    _ => {
                        self.latch(RuntimeErrorKind::Fault);
                    },
                }
            },
            VmInstr::AddFloat
            | VmInstr::SubtractFloat
            | VmInstr::MultiplyFloat
            | VmInstr::DivideFloat
            | VmInstr::PowerFloat
            | VmInstr::SquareRoot
            | VmInstr::LessThanFloat
            | VmInstr::LessThanOrEqualFloat
            | VmInstr::GreaterThanFloat
            | VmInstr::GreaterThanOrEqualFloat
            | VmInstr::EqualFloat => {
                self.latch(RuntimeErrorKind::Fault);
            },
            VmInstr::Jump(t) => {
                self.pc = t;
            },
            VmInstr::JumpIf(t) => {
                if !self.has_operands(1) {
                    self.latch(RuntimeErrorKind::Fault);
                    return ;
                }
                let va = self.stack[len - 1].clone();
                match va {
                    Value::Bool(b) => {
                        self.stack.pop();
                        if b {
                            self.pc = t;
                        } else {
                            self.pc = self.pc + 1;
                        }
                    },
                    _ => {
                        self.latch(RuntimeErrorKind::Fault);
                    },
                }
            },
            VmInstr::Call { nargs, target } => {
                if !self.has_operands(nargs as usize) {
                    self.latch(RuntimeErrorKind::Fault);
                    return ;
                }
                let f = Frame { return_pc: self.pc + 1, base: self.stack.len(), nargs };
                self.frames.push(f);
                self.pc = target;
            },
            VmInstr::CallFuncObj => {
                if !self.has_operands(1) {
                    self.latch(RuntimeErrorKind::Fault);
                    return ;
                }
                let va = self.stack[len - 1].clone();
                let h = match va {
                    Value::Closure(h) => h,
                    _ => {
                        self.latch(RuntimeErrorKind::Fault);
                        return ;
                    },
                };
                if h >= self.heap.len() || !(matches!(
                    &self.heap[h],
                    Some(HeapData::ClosureObj { .. })
                )) {
                    self.latch(RuntimeErrorKind::Fault);
                    return ;
                }
                let (code, envc) = match &self.heap[h] {
                    Some(HeapData::ClosureObj { code, env }) => (*code, clone_values(env)),
                    _ => (0, Vec::new()),
                };
                if envc.len() > u32::MAX as usize {
                    self.latch(RuntimeErrorKind::Fault);
                    return ;
                }
                self.stack.pop();
                let mut i: usize = 0;
                while i < envc.len()
                    invariant
                        i <= envc@.len(),
                        self.stack@ == old(self).stack@.take(len - 1) + envc@.take(i as int),
                        self.program == old(self).program,
                        self.frames@ == old(self).frames@,
                        self.heap@ == old(self).heap@,
                        self.pending == old(self).pending,
                        self.error == old(self).error,
                        self.done == old(self).done,
                        self.pc == old(self).pc,
                        len == old(self).stack@.len(),
                    decreases envc@.len() - i,
                {
                    self.stack.push(envc[i].clone());
                    assert(self.stack@ =~= old(self).stack@.take(len - 1) + envc@.take(i + 1));
                    i += 1;
                }
                assert(self.stack@ =~= old(self).stack@.take(len - 1) + envc@);
                let f = Frame {
                    return_pc: self.pc + 1,
                    base: self.stack.len(),
                    nargs: envc.len() as u32,
                };
                self.frames.push(f);
                self.pc = code;
            },
            VmInstr::Return(n) => {
                if self.frames.len() == 0 || !self.has_operands(1) {
                    self.latch(RuntimeErrorKind::Fault);
                    return ;
                }
                let f = self.frames[self.frames.len() - 1];
                let prev: usize = if self.frames.len() >= 2 {
                    self.frames[self.frames.len() - 2].base
                } else {
                    0
                };
                if (f.base < (n as usize)) || ((f.base - (n as usize)) < prev) {
                    self.latch(RuntimeErrorKind::Fault);
                    return ;
                }
                let ret = self.stack.pop().unwrap();
                self.stack.truncate(f.base - n as usize);
                self.stack.push(ret);
                self.frames.pop();
                self.pc = f.return_pc;
                assert(self.stack@ =~= old(self).stack@.take(f.base - n as int).push(
                    old(self).stack@.last(),
                ));
            },
            VmInstr::Stop => {
                self.done = true;
            },
            VmInstr::HostFunc(id) => {
                if !((id as usize) < self.program.host_arities.len()) {
                    self.latch(RuntimeErrorKind::Fault);
                    return ;
                }
                let arity = self.program.host_arities[id as usize] as usize;
                if !self.has_operands(arity) {
                    self.latch(RuntimeErrorKind::Fault);
                    return ;
                }
                let start = self.stack.len() - arity;
                let mut args: Vec<Value> = Vec::new();
                let mut i: usize = 0;
                while i < arity
                    invariant
                        i <= arity,
                        arity <= self.stack@.len(),
                        start == self.stack@.len() - arity,
                        args@ == self.stack@.subrange(start as int, start + i),
                        *self == *old(self),
                        self.stack@.len() <= usize::MAX,
                    decreases arity - i,
                {
                    args.push(self.stack[start + i].clone());
                    assert(args@ =~= self.stack@.subrange(start as int, start + i + 1));
                    i += 1;
                }
                self.stack.truncate(start);
                self.pending = Some(PendingHostCall { id, args });
            },
            VmInstr::Panic => {
                if !self.has_operands(1) {
                    self.latch(RuntimeErrorKind::Fault);
                    return ;
                }
                let va = self.stack[len - 1].clone();
                match va {
                    Value::Str(m) => {
                        self.stack.pop();
                        self.latch(RuntimeErrorKind::Panic(m));
                    },
                    _ => {
                        self.latch(RuntimeErrorKind::Fault);
                    },
                }
            },
            VmInstr::CallExtern(_) | VmInstr::LoadLib | VmInstr::LoadForeignFunc => {
                self.latch(RuntimeErrorKind::LinkError);
            },
            VmInstr::ConstructStruct(n) => {
                self.construct_composite(n as usize, true);
            },
            VmInstr::ConstructArray(n) => {
                self.construct_composite(n as usize, false);
            },
            VmInstr::ConstructVariant { tag } => {
                if !self.has_operands(1) {
                    self.latch(RuntimeErrorKind::Fault);
                    return ;
                }
                let p = self.stack.pop().unwrap();
                let h = self.heap.len();
                self.heap.push(Some(HeapData::VariantObj(tag, p)));
                self.stack.push(Value::Variant(h));
                self.pc = self.pc + 1;
            },
            VmInstr::DeconstructStruct => {
                if !self.has_operands(1) {
                    self.latch(RuntimeErrorKind::Fault);
                    return ;
                }
                let va = self.stack[len - 1].clone();
                let h = match va {
                    Value::Struct(h) => h,
                    _ => {
                        self.latch(RuntimeErrorKind::Fault);
                        return ;
                    },
                };
                if h >= self.heap.len() || !(matches!(
                    &self.heap[h],
                    Some(HeapData::StructObj(_))
                )) {
                    self.latch(RuntimeErrorKind::Fault);
                    return ;
                }
                let fs = match &self.heap[h] {
                    Some(HeapData::StructObj(fs)) => clone_values(fs),
                    _ => Vec::new(),
                };
                self.stack.pop();
                let mut i: usize = 0;
                while i < fs.len()
                    invariant
                        i <= fs@.len(),
                        self.stack@ == old(self).stack@.take(len - 1) + fs@.take(i as int),
                        self.program == old(self).program,
                        self.frames@ == old(self).frames@,
                        self.heap@ == old(self).heap@,
                        self.pending == old(self).pending,
                        self.error == old(self).error,
                        self.done == old(self).done,
                        self.pc == old(self).pc,
                        len == old(self).stack@.len(),
                    decreases fs@.len() - i,
                {
                    self.stack.push(fs[i].clone());
                    assert(self.stack@ =~= old(self).stack@.take(len - 1) + fs@.take(i + 1));
                    i += 1;
                }
                assert(self.stack@ =~= old(self).stack@.take(len - 1) + fs@);
                self.pc = self.pc + 1;
            },
            VmInstr::DeconstructVariant => {
                if !self.has_operands(1) {
                    self.latch(RuntimeErrorKind::Fault);
                    return ;
                }
                let va = self.stack[len - 1].clone();
                let h = match va {
                    Value::Variant(h) => h,
                    _ => {
                        self.latch(RuntimeErrorKind::Fault);
                        return ;
                    },
                };
                if h >= self.heap.len() || !(matches!(
                    &self.heap[h],
                    Some(HeapData::VariantObj(_, _))
                )) {
                    self.latch(RuntimeErrorKind::Fault);
                    return ;
                }
                let (t, p) = match &self.heap[h] {
                    Some(HeapData::VariantObj(t, p)) => (*t, p.clone()),
                    _ => (0, Value::Nil),
                };
                self.stack.pop();
                self.stack.push(Value::Int(t as i64));
                self.stack.push(p);
                self.pc = self.pc + 1;
            },
            VmInstr::GetField(fi) => {
                if !self.has_operands(1) {
                    self.latch(RuntimeErrorKind::Fault);
                    return ;
                }
                let va = self.stack[len - 1].clone();
                let h = match va {
                    Value::Struct(h) => h,
                    _ => {
                        self.latch(RuntimeErrorKind::Fault);
                        return ;
                    },
                };
                if h >= self.heap.len() {
                    self.latch(RuntimeErrorKind::Fault);
                    return ;
                }
                let fv = match &self.heap[h] {
                    Some(HeapData::StructObj(fs)) => {
                        if (fi as usize) < fs.len() {
                            Some(fs[fi as usize].clone())
                        } else {
                            None
                        }
                    },
                    _ => None,
                };
                match fv {
                    Some(v) => {
                        self.popn_push(1, v);
                        self.pc = self.pc + 1;
                    },
                    None => {
                        self.latch(RuntimeErrorKind::Fault);
                    },
                }
            },
            VmInstr::SetField(fi) => {
                if !self.has_operands(2) {
                    self.latch(RuntimeErrorKind::Fault);
                    return ;
                }
                let va = self.stack[len - 1].clone();
                let h = match va {
                    Value::Struct(h) => h,
                    _ => {
                        self.latch(RuntimeErrorKind::Fault);
                        return ;
                    },
                };
                if h >= self.heap.len() || !(matches!(
                    &self.heap[h],
                    Some(HeapData::StructObj(_))
                )) {
                    self.latch(RuntimeErrorKind::Fault);
                    return ;
                }
                let mut fs = match &self.heap[h] {
                    Some(HeapData::StructObj(fs)) => clone_values(fs),
                    _ => Vec::new(),
                };
                if !((fi as usize) < fs.len()) {
                    self.latch(RuntimeErrorKind::Fault);
                    return ;
                }
                let v = self.stack[len - 2].clone();
                fs[fi as usize] = v;
                self.heap[h] = Some(HeapData::StructObj(fs));
                self.stack.truncate(len - 2);
                self.pc = self.pc + 1;
            },
            VmInstr::GetIdx => {
                if !self.has_operands(2) {
                    self.latch(RuntimeErrorKind::Fault);
                    return ;
                }
                let va = self.stack[len - 2].clone();
                let vb = self.stack[len - 1].clone();
                let (h, idx) = match (va, vb) {
                    (Value::Array(h), Value::Int(idx)) => (h, idx),
                    _ => {
                        self.latch(RuntimeErrorKind::Fault);
                        return ;
                    },
                };
                if h >= self.heap.len() || !(matches!(&self.heap[h], Some(HeapData::ArrayObj(_))))
                {
                    self.latch(RuntimeErrorKind::Fault);
                    return ;
                }
                let ev = match &self.heap[h] {
                    Some(HeapData::ArrayObj(vs)) => {
                        if 0 <= idx && (idx as u64) < (vs.len() as u64) {
                            Some(vs[idx as usize].clone())
                        } else {
                            None
                        }
                    },
                    _ => None,
                };
                match ev {
                    Some(v) => {
                        self.popn_push(2, v);
                        self.pc = self.pc + 1;
                    },
                    None => {
                        self.latch(RuntimeErrorKind::IndexOutOfBounds);
                    },
                }
            },
            VmInstr::SetIdx => {
                if !self.has_operands(3) {
                    self.latch(RuntimeErrorKind::Fault);
                    return ;
                }
                let va = self.stack[len - 2].clone();
                let vb = self.stack[len - 1].clone();
                let (h, idx) = match (va, vb) {
                    (Value::Array(h), Value::Int(idx)) => (h, idx),
                    _ => {
                        self.latch(RuntimeErrorKind::Fault);
                        return ;
                    },
                };
                if h >= self.heap.len() || !(matches!(&self.heap[h], Some(HeapData::ArrayObj(_))))
                {
                    self.latch(RuntimeErrorKind::Fault);
                    return ;
                }
                let mut vs = match &self.heap[h] {
                    Some(HeapData::ArrayObj(vs)) => clone_values(vs),
                    _ => Vec::new(),
                };
                if !(0 <= idx && (idx as u64) < (vs.len() as u64)) {
                    self.latch(RuntimeErrorKind::IndexOutOfBounds);
                    return ;
                }
                let v = self.stack[len - 3].clone();
                vs[idx as usize] = v;
                self.heap[h] = Some(HeapData::ArrayObj(vs));
                self.stack.truncate(len - 3);
                self.pc = self.pc + 1;
            },
            VmInstr::MakeClosure { func_addr } => {
                if !self.has_operands(1) {
                    self.latch(RuntimeErrorKind::Fault);
                    return ;
                }
                let va = self.stack[len - 1].clone();
                let h = match va {
                    Value::Array(h) => h,
                    _ => {
                        self.latch(RuntimeErrorKind::Fault);
                        return ;
                    },
                };
                if h >= self.heap.len() || !(matches!(&self.heap[h], Some(HeapData::ArrayObj(_))))
                {
                    self.latch(RuntimeErrorKind::Fault);
                    return ;
                }
                let env = match &self.heap[h] {
                    Some(HeapData::ArrayObj(vs)) => clone_values(vs),
                    _ => Vec::new(),
                };
                let nh = self.heap.len();
                self.heap.push(Some(HeapData::ClosureObj { code: func_addr, env }));
                self.popn_push(1, Value::Closure(nh));
                self.pc = self.pc + 1;
            },
            VmInstr::ArrayAppend => {
                if !self.has_operands(2) {
                    self.latch(RuntimeErrorKind::Fault);
                    return ;
                }
                let va = self.stack[len - 2].clone();
                let h = match va {
                    Value::Array(h) => h,
                    _ => {
                        self.latch(RuntimeErrorKind::Fault);
                        return ;
                    },
                };
                if h >= self.heap.len() || !(matches!(&self.heap[h], Some(HeapData::ArrayObj(_))))
                {
                    self.latch(RuntimeErrorKind::Fault);
                    return ;
                }
                let mut vs = match &self.heap[h] {
                    Some(HeapData::ArrayObj(vs)) => clone_values(vs),
                    _ => Vec::new(),
                };
                let v = self.stack[len - 1].clone();
                vs.push(v);
                self.heap[h] = Some(HeapData::ArrayObj(vs));
                self.popn_push(2, Value::Nil);
                self.pc = self.pc + 1;
            },
            VmInstr::ArrayLength => {
                if !self.has_operands(1) {
                    self.latch(RuntimeErrorKind::Fault);
                    return ;
                }
                let va = self.stack[len - 1].clone();
                let h = match va {
                    Value::Array(h) => h,
                    _ => {
                        self.latch(RuntimeErrorKind::Fault);
                        return ;
                    },
                };
                if h >= self.heap.len() {
                    self.latch(RuntimeErrorKind::Fault);
                    return ;
                }
                let l = match &self.heap[h] {
                    Some(HeapData::ArrayObj(vs)) => Some(vs.len()),
                    _ => None,
                };
                match l {
                    Some(l) => {
                        if (l as u64) > (i64::MAX as u64) {
                            self.latch(RuntimeErrorKind::Fault);
                            return ;
                        }
                        self.popn_push(1, Value::Int(l as i64));
                        self.pc = self.pc + 1;
                    },
                    None => {
                        self.latch(RuntimeErrorKind::Fault);
                    },
                }
            },
            VmInstr::ArrayPop => {
                if !self.has_operands(1) {
                    self.latch(RuntimeErrorKind::Fault);
                    return ;
                }
                let va = self.stack[len - 1].clone();
                let h = match va {
                    Value::Array(h) => h,
                    _ => {
                        self.latch(RuntimeErrorKind::Fault);
                        return ;
                    },
                };
                if h >= self.heap.len() || !(matches!(&self.heap[h], Some(HeapData::ArrayObj(_))))
                {
                    self.latch(RuntimeErrorKind::Fault);
                    return ;
                }
                let mut vs = match &self.heap[h] {
                    Some(HeapData::ArrayObj(vs)) => clone_values(vs),
                    _ => Vec::new(),
                };
                if vs.len() == 0 {
                    self.latch(RuntimeErrorKind::IndexOutOfBounds);
                    return ;
                }
                vs.pop();
                self.heap[h] = Some(HeapData::ArrayObj(vs));
                self.popn_push(1, Value::Nil);
                self.pc = self.pc + 1;
            },
        }
    }

    /// Reads the two integer operands of a binary instruction, if present.
    /// The state is untouched.
    fn take_int2(&mut self) -> (r: Option<(i64, i64)>)
        ensures
            *final(self) == *old(self),
            r == top2_ints(*old(self)),
    {
        if !self.has_operands(2) {
            return None;
        }
        let len = self.stack.len();
        let va = self.stack[len - 2].clone();
        let vb = self.stack[len - 1].clone();
        match (va, vb) {
            (Value::Int(a), Value::Int(b)) => Some((a, b)),
            _ => None,
        }
    }

    /// Commits the mathematical result of an integer binary operator:
    /// pops the operands and pushes the value, or latches on overflow.
    fn finish_arith(&mut self, r: i128)
        requires
            avail(*old(self)) >= 2,
            old(self).pc < usize::MAX,
        ensures
            int_arith_effect(*old(self), *final(self), r as int),
    {
        if r < i64::MIN as i128 || r > i64::MAX as i128 {
            self.latch(RuntimeErrorKind::Fault);
            return ;
        }
        self.popn_push(2, Value::Int(r as i64));
        self.pc = self.pc + 1;
    }

    /// Advances the machine by at most `max_steps` instructions, stopping
    /// early when it finishes, latches an error, or suspends on a host call.
    /// Verification of `step` guarantees execution never leaves the
    /// instruction stream: any overrun latches an error instead.
    pub fn run(&mut self, max_steps: usize) -> (steps: usize)
        ensures
            steps <= max_steps,
            steps < max_steps ==> final(self).done || final(self).error is Some || final(
                self).pending is Some,
            steps_rel(*old(self), *final(self), steps as nat),
    {
        let mut steps: usize = 0;
        while steps < max_steps
            invariant
                steps <= max_steps,
                steps_rel(*old(self), *self, steps as nat),
            decreases max_steps - steps,
        {
            if self.done || self.error.is_some() || self.pending.is_some() {
                return steps;
            }
            let ghost pre = *self;
            self.step();
            proof {
                assert(steps_rel(*old(self), *self, (steps + 1) as nat)) by {
                    assert(steps_rel(*old(self), pre, steps as nat) && step_effect(pre, *self));
                }
            }
            steps += 1;
        }
        steps
    }

    /// Services a suspended host call: pushes the host's return value,
    /// clears the suspension, and resumes past the `HostFunc` instruction.
    /// Without a suspended call this does nothing.
    pub fn fulfill(&mut self, v: Value)
        ensures
            old(self).pending is Some && old(self).pc < usize::MAX ==> {
                &&& final(self).stack@ == old(self).stack@.push(v)
                &&& final(self).pending is None
                &&& final(self).pc == old(self).pc + 1
                &&& final(self).program == old(self).program
                &&& final(self).frames@ == old(self).frames@
                &&& final(self).heap@ == old(self).heap@
                &&& final(self).error == old(self).error
                &&& final(self).done == old(self).done
            },
            old(self).pending is None ==> *final(self) == *old(self),
            old(self).pending is Some && old(self).pc == usize::MAX ==> *final(self) == *old(
                self),
    {
        if self.pending.is_none() {
            return ;
        }
        if self.pc == usize::MAX {
            return ;
        }
        self.stack.push(v);
        self.pending = None;
        self.pc = self.pc + 1;
    }

    pub fn is_done(&self) -> (r: bool)
        ensures
            r == self.done,
    {
        self.done
    }

    pub fn get_error(&self) -> (r: Option<&RuntimeError>)
        ensures
            match r {
                Some(e) => self.error matches Some(e0) && e0 == *e,
                None => self.error is None,
            },
    {
        self.error.as_ref()
    }

    /// The id of the suspended host call, if the machine is suspended.
    pub fn get_pending_host_func(&self) -> (r: Option<u16>)
        ensures
            match r {
                Some(id) => self.pending matches Some(p) && p.id == id,
                None => self.pending is None,
            },
    {
        match &self.pending {
            Some(p) => Some(p.id),
            None => None,
        }
    }

    /// The arguments of the suspended host call, in source order.
    pub fn get_pending_args(&self) -> (r: Option<&Vec<Value>>)
        ensures
            match r {
                Some(args) => self.pending matches Some(p) && p.args == *args,
                None => self.pending is None,
            },
    {
        match &self.pending {
            Some(p) => Some(&p.args),
            None => None,
        }
    }

    /// Pops `n` operands, builds a struct or array object from them in push
    /// order, and pushes its handle.
    fn construct_composite(&mut self, n: usize, is_struct: bool)
        requires
            old(self).pc < usize::MAX,
        ensures
            ({
                let s0 = *old(self);
                let s1 = *final(self);
                let len = s0.stack@.len() as int;
                if avail(s0) >= n as int {
                    &&& heap_grown(s0, s1)
                    &&& if is_struct {
                        s1.heap@.last() matches Some(HeapData::StructObj(fs)) && fs@
                            == s0.stack@.subrange(len - n as int, len)
                    } else {
                        s1.heap@.last() matches Some(HeapData::ArrayObj(fs)) && fs@
                            == s0.stack@.subrange(len - n as int, len)
                    }
                    &&& s1.stack@ == s0.stack@.take(len - n as int).push(
                        if is_struct {
                            Value::Struct(s0.heap@.len() as usize)
                        } else {
                            Value::Array(s0.heap@.len() as usize)
                        },
                    )
                    &&& frames_ctrl_same(s0, s1)
                } else {
                    fault(s0, s1)
                }
            }),
    {
        if !self.has_operands(n) {
            self.latch(RuntimeErrorKind::Fault);
            return ;
        }
        let len = self.stack.len();
        let start = len - n;
        let mut fields: Vec<Value> = Vec::new();
        let mut i: usize = 0;
        while i < n
            invariant
                i <= n,
                n <= self.stack@.len(),
                start == self.stack@.len() - n,
                fields@ == self.stack@.subrange(start as int, start + i),
                *self == *old(self),
                self.stack@.len() <= usize::MAX,
            decreases n - i,
        {
            fields.push(self.stack[start + i].clone());
            assert(fields@ =~= self.stack@.subrange(start as int, start + i + 1));
            i += 1;
        }
        let h = self.heap.len();
        if is_struct {
            self.heap.push(Some(HeapData::StructObj(fields)));
            self.popn_push(n, Value::Struct(h));
        } else {
            self.heap.push(Some(HeapData::ArrayObj(fields)));
            self.popn_push(n, Value::Array(h));
        }
        self.pc = self.pc + 1;
    }
}

/// `s1` is reached from `s0` by exactly `k` interpreter steps.
pub open spec fn steps_rel(s0: Vm, s1: Vm, k: nat) -> bool
    decreases k,
{
    if k == 0 {
        s1 == s0
    } else {
        exists|mid: Vm| steps_rel(s0, mid, (k - 1) as nat) && #[trigger] step_effect(mid, s1)
    }
}

/// The heap handle a value carries, if it is a composite.
pub open spec fn handle_of(v: Value) -> Option<int> {
    match v {
        Value::Array(h) => Some(h as int),
        Value::Struct(h) => Some(h as int),
        Value::Variant(h) => Some(h as int),
        Value::Closure(h) => Some(h as int),
        _ => None,
    }
}

/// Whether a value's handle (if any) points at a live object of this heap.
pub open spec fn value_live(heap: Seq<Option<HeapData>>, v: Value) -> bool {
    match handle_of(v) {
        Some(h) => 0 <= h < heap.len() && heap[h] is Some,
        None => true,
    }
}

/// Whether the object a root value points at (if valid and live) is marked.
pub open spec fn root_marked(heap: Seq<Option<HeapData>>, v: Value, marks: Seq<bool>) -> bool {
    match handle_of(v) {
        Some(h) => (0 <= h < heap.len() && heap[h] is Some) ==> (0 <= h < marks.len() && marks[h]),
        None => true,
    }
}

/// The handles held by the object in slot `h`, for the marker to follow.
fn collect_handles(heap: &Vec<Option<HeapData>>, h: usize) -> (r: Vec<usize>)
    requires
        h < heap@.len(),
{
    let mut r: Vec<usize> = Vec::new();
    match &heap[h] {
        Some(HeapData::ArrayObj(vs)) | Some(HeapData::StructObj(vs)) => {
            let mut i: usize = 0;
            while i < vs.len()
                decreases vs@.len() - i,
            {
                match &vs[i] {
                    Value::Array(p) => r.push(*p),
                    Value::Struct(p) => r.push(*p),
                    Value::Variant(p) => r.push(*p),
                    Value::Closure(p) => r.push(*p),
                    _ => {},
                }
                i += 1;
            }
        },
        Some(HeapData::VariantObj(_, v)) => {
            match v {
                Value::Array(p) => r.push(*p),
                Value::Struct(p) => r.push(*p),
                Value::Variant(p) => r.push(*p),
                Value::Closure(p) => r.push(*p),
                _ => {},
            }
        },
        Some(HeapData::ClosureObj { env, .. }) => {
            let mut i: usize = 0;
            while i < env.len()
                decreases env@.len() - i,
            {
                match &env[i] {
                    Value::Array(p) => r.push(*p),
                    Value::Struct(p) => r.push(*p),
                    Value::Variant(p) => r.push(*p),
                    Value::Closure(p) => r.push(*p),
                    _ => {},
                }
                i += 1;
            }
        },
        None => {},
    }
    r
}

impl Vm {
    /// Mark-and-sweep collection at a safepoint. The roots are the value
    /// stack and the arguments of a suspended host call; marking follows
    /// struct fields, array elements, variant payloads and closure
    /// environments; sweeping frees the unmarked slots. Nothing outside the
    /// heap changes, the heap keeps its length (slots are freed in place),
    /// a surviving object is exactly what it was, and every rooted object
    /// survives.
    pub fn gc(&mut self)
        ensures
            final(self).program == old(self).program,
            final(self).pc == old(self).pc,
            final(self).stack@ == old(self).stack@,
            final(self).frames@ == old(self).frames@,
            final(self).pending == old(self).pending,
            final(self).error == old(self).error,
            final(self).done == old(self).done,
            final(self).heap@.len() == old(self).heap@.len(),
            forall|h: int|
                0 <= h < old(self).heap@.len() && final(self).heap@[h] is Some ==> final(
                    self).heap@[h] == old(self).heap@[h],
            forall|i: int|
                0 <= i < old(self).stack@.len() && value_live(
                    old(self).heap@,
                    #[trigger] old(self).stack@[i],
                ) ==> value_live(final(self).heap@, old(self).stack@[i]),
    {
        let n = self.heap.len();
        let mut marks: Vec<bool> = Vec::new();
        let mut k: usize = 0;
        while k < n
            invariant
                k <= n,
                marks@.len() == k,
            decreases n - k,
        {
            marks.push(false);
            k += 1;
        }

        let mut wl: Vec<usize> = Vec::new();
        let mut i: usize = 0;
        while i < self.stack.len()
            invariant
                i <= self.stack@.len(),
                n == self.heap@.len(),
                marks@.len() == n,
                forall|m: int|
                    0 <= m < i ==> root_marked(self.heap@, #[trigger] self.stack@[m], marks@),
            decreases self.stack@.len() - i,
        {
            let hop: Option<usize> = match &self.stack[i] {
                Value::Array(h) => Some(*h),
                Value::Struct(h) => Some(*h),
                Value::Variant(h) => Some(*h),
                Value::Closure(h) => Some(*h),
                _ => None,
            };
            match hop {
                Some(h) => {
                    if h < n {
                        if !marks[h] {
                            marks[h] = true;
                            wl.push(h);
                        }
                    }
                },
                None => {},
            }
            i += 1;
        }
        let pal = self.pending_args_len();
        let mut j: usize = 0;
        while j < pal
            invariant
                n == self.heap@.len(),
                marks@.len() == n,
                forall|m: int|
                    0 <= m < self.stack@.len() ==> root_marked(
                        self.heap@,
                        #[trigger] self.stack@[m],
                        marks@,
                    ),
            decreases pal - j,
        {
            let hop: Option<usize> = match self.pending_arg_handle(j) {
                Some(h) => Some(h),
                None => None,
            };
            match hop {
                Some(h) => {
                    if h < n {
                        if !marks[h] {
                            marks[h] = true;
                            wl.push(h);
                        }
                    }
                },
                None => {},
            }
            j += 1;
        }

        // A handle enters the worklist only as it turns marked, so the heap
        // size bounds the work; were the fuel ever to run short, everything
        // is kept, which frees nothing and breaks no promise.
        let mut fuel: usize = n;
        while wl.len() > 0
            invariant
                n == self.heap@.len(),
                marks@.len() == n,
                forall|m: int|
                    0 <= m < self.stack@.len() ==> root_marked(
                        self.heap@,
                        #[trigger] self.stack@[m],
                        marks@,
                    ),
            decreases fuel,
        {
            if fuel == 0 {
                let mut a: usize = 0;
                while a < n
                    invariant
                        n == self.heap@.len(),
                        marks@.len() == n,
                        forall|m: int|
                            0 <= m < self.stack@.len() ==> root_marked(
                                self.heap@,
                                #[trigger] self.stack@[m],
                                marks@,
                            ),
                        a <= n,
                        forall|x: int| 0 <= x < a ==> marks@[x],
                    decreases n - a,
                {
                    marks[a] = true;
                    a += 1;
                }
                break ;
            }
            fuel -= 1;
            let h = match wl.pop() {
                Some(h) => h,
                None => 0,
            };
            if h < n {
                let pointees = collect_handles(&self.heap, h);
                let mut q: usize = 0;
                while q < pointees.len()
                    invariant
                        n == self.heap@.len(),
                        marks@.len() == n,
                        forall|m: int|
                            0 <= m < self.stack@.len() ==> root_marked(
                                self.heap@,
                                #[trigger] self.stack@[m],
                                marks@,
                            ),
                        q <= pointees@.len(),
                    decreases pointees@.len() - q,
                {
                    let p = pointees[q];
                    if p < n {
                        if !marks[p] {
                            marks[p] = true;
                            wl.push(p);
                        }
                    }
                    q += 1;
                }
            }
        }

        // Sweep: free the unmarked slots in place.
        let ghost pre = self.heap@;
        let mut h: usize = 0;
        while h < n
            invariant
                h <= n,
                n == self.heap@.len(),
                marks@.len() == n,
                self.heap@.len() == pre.len(),
                forall|m: int|
                    0 <= m < self.stack@.len() ==> root_marked(
                        pre,
                        #[trigger] self.stack@[m],
                        marks@,
                    ),
                forall|x: int|
                    0 <= x < h ==> self.heap@[x] == if marks@[x] {
                        pre[x]
                    } else {
                        None::<HeapData>
                    },
                forall|x: int| h <= x < n ==> self.heap@[x] == pre[x],
                self.program == old(self).program,
                self.pc == old(self).pc,
                self.stack@ == old(self).stack@,
                self.frames@ == old(self).frames@,
                self.pending == old(self).pending,
                self.error == old(self).error,
                self.done == old(self).done,
            decreases n - h,
        {
            if !marks[h] {
                self.heap[h] = None;
            }
            h += 1;
        }
    }

    fn pending_args_len(&self) -> (r: usize)
        ensures
            r == match self.pending {
                Some(p) => p.args@.len(),
                None => 0,
            },
    {
        match &self.pending {
            Some(p) => p.args.len(),
            None => 0,
        }
    }

    fn pending_arg_handle(&self, i: usize) -> (r: Option<usize>)
        ensures
            r matches Some(h) ==> self.pending matches Some(p) && i < p.args@.len() && handle_of(
                p.args@[i as int],
            ) == Some(h as int),
    {
        match &self.pending {
            Some(p) => {
                if i < p.args.len() {
                    match &p.args[i] {
                        Value::Array(h) => Some(*h),
                        Value::Struct(h) => Some(*h),
                        Value::Variant(h) => Some(*h),
                        Value::Closure(h) => Some(*h),
                        _ => None,
                    }
                } else {
                    None
                }
            },
            None => None,
        }
    }
}

/// Magnitude of an `i64`, exactly, as a `u128`.
fn abs_u128(a: i64) -> (r: u128)
    ensures
        r == abs_int(a as int),
{
    if a < 0 {
        (-(a as i128)) as u128
    } else {
        a as u128
    }
}

pub open spec fn abs_int(a: int) -> int {
    if a < 0 {
        -a
    } else {
        a
    }
}

/// A step taken from a state whose pc has left the instruction stream
/// latches an error: together with the verification of `step` (which rules
/// out panics and wild accesses), execution never runs off the end — it
/// terminates with `Stop`, latches a runtime error, or suspends at a host
/// call.
pub proof fn lemma_no_overrun(s0: Vm, s1: Vm)
    requires
        step_effect(s0, s1),
        !s0.done,
        s0.error is None,
        s0.pending is None,
        s0.pc >= s0.program.instructions@.len(),
    ensures
        s1.error is Some,
{
}

/// A `LoadOffset(k)` that executes without latching an error reads exactly
/// the slot `base + k` of the active frame, and that slot lies within the
/// live stack.
pub proof fn lemma_load_offset_in_frame(s0: Vm, s1: Vm, k: i32)
    requires
        step_effect(s0, s1),
        !s0.done,
        s0.error is None,
        s0.pending is None,
        s0.pc < s0.program.instructions@.len(),
        cur_instr(s0) == VmInstr::LoadOffset(k),
        s1.error is None,
    ensures
        0 <= cur_base(s0) + k < s0.stack@.len(),
        s1.stack@ == s0.stack@.push(s0.stack@[cur_base(s0) + k]),
{
    let len = s0.stack@.len() as int;
    assert(s0.stack@.take(len) =~= s0.stack@);
}

/// Frame discipline of `Return(n)`: the stack shrinks by exactly
/// `n + locals + 1` slots, where `locals` is the number of slots the frame
/// had pushed above its base besides the return value, and grows by one
/// slot holding the return value. The frame is discarded and control goes
/// back to the stored return pc.
pub proof fn lemma_return_frame_discipline(s0: Vm, s1: Vm, n: u32)
    requires
        step_effect(s0, s1),
        !s0.done,
        s0.error is None,
        s0.pending is None,
        s0.pc < s0.program.instructions@.len(),
        cur_instr(s0) == VmInstr::Return(n),
        s1.error is None,
    ensures
        s0.frames@.len() >= 1,
        ({
            let base = s0.frames@.last().base as int;
            let locals = s0.stack@.len() - base - 1;
            &&& s1.stack@.len() == s0.stack@.len() - (n + locals + 1) + 1
            &&& s1.stack@.len() == base - n + 1
            &&& s1.stack@.last() == s0.stack@.last()
            &&& s1.frames@ == s0.frames@.drop_last()
            &&& s1.pc == s0.frames@.last().return_pc
        }),
{
}

/// `ConstructStruct(n)` followed by `DeconstructStruct` restores the
/// original stack exactly (and leaves behind one more heap object).
pub proof fn lemma_struct_round_trip(s0: Vm, s1: Vm, s2: Vm, n: u16)
    requires
        step_effect(s0, s1),
        step_effect(s1, s2),
        !s0.done,
        s0.error is None,
        s0.pending is None,
        s0.pc < s0.program.instructions@.len(),
        cur_instr(s0) == VmInstr::ConstructStruct(n),
        s0.heap@.len() < usize::MAX,
        s1.pc < s1.program.instructions@.len(),
        cur_instr(s1) == VmInstr::DeconstructStruct,
        s2.error is None,
    ensures
        s2.stack@ == s0.stack@,
        s2.pc == s0.pc + 2,
        s2.frames@ == s0.frames@,
{
    let len = s0.stack@.len() as int;
    let n_i = n as int;
    assert(avail(s0) >= n_i) by {
        if avail(s0) < n_i {
            assert(latched(s0, s1, RuntimeErrorKind::Fault));
            assert(s1.error is Some);
            assert(s2 == s1);
            assert(false);
        }
    }
    let h = s0.heap@.len() as int;
    assert(s1.stack@ == s0.stack@.take(len - n_i).push(Value::Struct(h as usize)));
    assert(s1.stack@.len() == len - n_i + 1);
    assert(s1.heap@[h] == s1.heap@.last());
    match s1.heap@[h] {
        Some(HeapData::StructObj(fs)) => {
            assert(fs@ == s0.stack@.subrange(len - n_i, len));
            assert(avail(s1) >= 1);
            assert(s1.stack@[s1.stack@.len() - 1] == Value::Struct(h as usize));
            assert(s2.stack@ == s1.stack@.take(len - n_i) + fs@);
            assert(s1.stack@.take(len - n_i) =~= s0.stack@.take(len - n_i));
            assert(s2.stack@ =~= s0.stack@);
        },
        _ => {
            assert(false);
        },
    }
}

/// `ConstructVariant { tag }` followed by `DeconstructVariant` yields the
/// tag and the original payload on top of the otherwise untouched stack.
pub proof fn lemma_variant_round_trip(s0: Vm, s1: Vm, s2: Vm, tag: u16)
    requires
        step_effect(s0, s1),
        step_effect(s1, s2),
        !s0.done,
        s0.error is None,
        s0.pending is None,
        s0.pc < s0.program.instructions@.len(),
        cur_instr(s0) == (VmInstr::ConstructVariant { tag }),
        s0.heap@.len() < usize::MAX,
        s1.pc < s1.program.instructions@.len(),
        cur_instr(s1) == VmInstr::DeconstructVariant,
        s2.error is None,
    ensures
        s2.stack@ == s0.stack@.take(s0.stack@.len() - 1).push(Value::Int(tag as i64)).push(
            s0.stack@.last(),
        ),
        s2.pc == s0.pc + 2,
        s2.frames@ == s0.frames@,
{
    let len = s0.stack@.len() as int;
    assert(avail(s0) >= 1) by {
        if avail(s0) < 1 {
            assert(latched(s0, s1, RuntimeErrorKind::Fault));
            assert(s1.error is Some);
            assert(s2 == s1);
            assert(false);
        }
    }
    let h = s0.heap@.len() as int;
    assert(s1.stack@ == s0.stack@.take(len - 1).push(Value::Variant(h as usize)));
    assert(s1.stack@.len() == len);
    assert(s1.heap@[h] == s1.heap@.last());
    match s1.heap@[h] {
        Some(HeapData::VariantObj(t, p)) => {
            assert(t == tag && p == s0.stack@.last());
            assert(avail(s1) >= 1);
            assert(s1.stack@[s1.stack@.len() - 1] == Value::Variant(h as usize));
            assert(s2.stack@ == s1.stack@.take(len - 1).push(Value::Int(t as i64)).push(p));
            assert(s1.stack@.take(len - 1) =~= s0.stack@.take(len - 1));
        },
        _ => {
            assert(false);
        },
    }
}

/// Truncated (round-toward-zero) division, as the integer divide of the
/// machine performs it.
pub open spec fn trunc_div(a: int, b: int) -> int {
    if (a < 0) == (b < 0) {
        abs_int(a) / abs_int(b)
    } else {
        -(abs_int(a) / abs_int(b))
    }
}

/// Remainder of truncated division: it takes the sign of the dividend.
pub open spec fn trunc_mod(a: int, b: int) -> int {
    if a < 0 {
        -(abs_int(a) % abs_int(b))
    } else {
        abs_int(a) % abs_int(b)
    }
}

} // verus!
