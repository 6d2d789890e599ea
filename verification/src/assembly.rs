//! The labeled instruction stream emitted by the translator, and the link
//! step that removes labels, producing flat VM instructions whose jump and
//! call targets are program-counter indices.

use vstd::prelude::*;
use vstd::hash_map::StringHashMap;
use crate::constants::{ConstantsHolder, is_first_index_int, is_first_index_str, int_id, str_id,
    lemma_first_index_int_is_id, lemma_first_index_str_is_id};
use crate::vm::VmInstr;
use crate::text::{dec_rep, i64_to_decimal, u64_to_decimal, str_debug_of, str_to_debug};

verus! {

/// A symbolic jump target, resolved to a program counter during linking.
pub type AsmLabel = String;

/// Pre-link unit: an instruction with its debug information, or a bare label.
#[derive(Debug, Clone)]
pub enum Line {
    Instr { instr: Instr, lineno: usize, file_id: u32, func_id: u32 },
    Label(AsmLabel),
}

/// A bytecode instruction before linking. Jump and call targets are string
/// labels; constants are carried by value (floats by their source text).
#[derive(Debug, Clone)]
pub enum Instr {
    Pop,
    Duplicate,
    LoadOffset(i32),
    StoreOffset(i32),
    PushNil(u16),
    PushBool(bool),
    PushInt(i64),
    PushFloat(String),
    PushString(String),
    AddInt,
    SubtractInt,
    MultiplyInt,
    DivideInt,
    PowerInt,
    Modulo,
    AddFloat,
    SubtractFloat,
    MultiplyFloat,
    DivideFloat,
    PowerFloat,
    SquareRoot,
    Not,
    And,
    Or,
    LessThanInt,
    LessThanOrEqualInt,
    GreaterThanInt,
    GreaterThanOrEqualInt,
    LessThanFloat,
    LessThanOrEqualFloat,
    GreaterThanFloat,
    GreaterThanOrEqualFloat,
    EqualInt,
    EqualFloat,
    EqualBool,
    EqualString,
    Jump(AsmLabel),
    JumpIf(AsmLabel),
    Call(usize, AsmLabel),
    CallFuncObj,
    CallExtern(u32),
    Return(u32),
    Stop,
    HostFunc(u16),
    Panic,
    ConstructStruct(u16),
    ConstructArray(usize),
    ConstructVariant { tag: u16 },
    DeconstructStruct,
    DeconstructVariant,
    GetField(u16),
    SetField(u16),
    GetIdx,
    SetIdx,
    MakeClosure { func_addr: AsmLabel },
    ArrayAppend,
    ArrayLength,
    ArrayPop,
    ConcatStrings,
    IntToString,
    FloatToString,
    LoadLib,
    LoadForeignFunc,
}

/// The textual mnemonic of one instruction, with its operands.
pub open spec fn instr_text(i: Instr) -> Seq<char> {
    match i {
        Instr::Pop => "pop"@,
        Instr::Duplicate => "duplicate"@,
        Instr::AddInt => "add_int"@,
        Instr::SubtractInt => "subtract_int"@,
        Instr::MultiplyInt => "multiply_int"@,
        Instr::DivideInt => "divide_int"@,
        Instr::PowerInt => "power_int"@,
        Instr::Modulo => "modulo"@,
        Instr::AddFloat => "add_float"@,
        Instr::SubtractFloat => "subtract_float"@,
        Instr::MultiplyFloat => "multiply_float"@,
        Instr::DivideFloat => "divide_float"@,
        Instr::PowerFloat => "power_float"@,
        Instr::SquareRoot => "square_root"@,
        Instr::Not => "not"@,
        Instr::And => "and"@,
        Instr::Or => "or"@,
        Instr::LessThanInt => "less_than_int"@,
        Instr::LessThanOrEqualInt => "less_than_or_equal_int"@,
        Instr::GreaterThanInt => "greater_than_int"@,
        Instr::GreaterThanOrEqualInt => "greater_than_or_equal_int"@,
        Instr::LessThanFloat => "less_than_float"@,
        Instr::LessThanOrEqualFloat => "less_than_or_equal_float"@,
        Instr::GreaterThanFloat => "greater_than_float"@,
        Instr::GreaterThanOrEqualFloat => "greater_than_or_equal_float"@,
        Instr::EqualInt => "equal_int"@,
        Instr::EqualFloat => "equal_float"@,
        Instr::EqualBool => "equal_bool"@,
        Instr::EqualString => "equal_string"@,
        Instr::CallFuncObj => "call_func_obj"@,
        Instr::Stop => "stop"@,
        Instr::Panic => "panic"@,
        Instr::DeconstructStruct => "deconstruct_struct"@,
        Instr::DeconstructVariant => "deconstruct_variant"@,
        Instr::GetIdx => "get_index"@,
        Instr::SetIdx => "set_index"@,
        Instr::ArrayAppend => "array_append"@,
        Instr::ArrayLength => "array_len"@,
        Instr::ArrayPop => "array_pop"@,
        Instr::ConcatStrings => "concat_strings"@,
        Instr::IntToString => "int_to_string"@,
        Instr::FloatToString => "float_to_string"@,
        Instr::LoadLib => "load_lib"@,
        Instr::LoadForeignFunc => "load_foreign_func"@,
        Instr::LoadOffset(n) => "load_offset "@ + dec_rep(n as int),
        Instr::StoreOffset(n) => "store_offset "@ + dec_rep(n as int),
        Instr::PushNil(n) => "push_nil "@ + dec_rep(n as int),
        Instr::PushInt(n) => "push_int "@ + dec_rep(n as int),
        Instr::CallExtern(n) => "call_extern "@ + dec_rep(n as int),
        Instr::Return(n) => "return "@ + dec_rep(n as int),
        Instr::HostFunc(n) => "call_host "@ + dec_rep(n as int),
        Instr::ConstructStruct(n) => "construct_struct "@ + dec_rep(n as int),
        Instr::ConstructArray(n) => "construct_array "@ + dec_rep(n as int),
        Instr::GetField(n) => "get_field "@ + dec_rep(n as int),
        Instr::SetField(n) => "set_field "@ + dec_rep(n as int),
        Instr::ConstructVariant { tag } => "construct_variant "@ + dec_rep(tag as int),
        Instr::PushBool(b) => if b {
            "push_bool true"@
        } else {
            "push_bool false"@
        },
        Instr::PushFloat(f) => "push_float "@ + f@,
        Instr::PushString(st) => "push_string "@ + str_debug_of(st@),
        Instr::Jump(l) => "jump "@ + l@,
        Instr::JumpIf(l) => "jump_if "@ + l@,
        Instr::Call(nargs, l) => ("call "@ + dec_rep(nargs as int) + " "@) + l@,
        Instr::MakeClosure { func_addr } => "make_closure "@ + func_addr@,
    }
}

impl Instr {
    /// Renders the instruction in the assembly's textual form.
    pub fn to_text(&self) -> (r: String)
        ensures
            r@ == instr_text(*self),
    {
        match self {
            Instr::Pop => String::from_str("pop"),
            Instr::Duplicate => String::from_str("duplicate"),
            Instr::AddInt => String::from_str("add_int"),
            Instr::SubtractInt => String::from_str("subtract_int"),
            Instr::MultiplyInt => String::from_str("multiply_int"),
            Instr::DivideInt => String::from_str("divide_int"),
            Instr::PowerInt => String::from_str("power_int"),
            Instr::Modulo => String::from_str("modulo"),
            Instr::AddFloat => String::from_str("add_float"),
            Instr::SubtractFloat => String::from_str("subtract_float"),
            Instr::MultiplyFloat => String::from_str("multiply_float"),
            Instr::DivideFloat => String::from_str("divide_float"),
            Instr::PowerFloat => String::from_str("power_float"),
            Instr::SquareRoot => String::from_str("square_root"),
            Instr::Not => String::from_str("not"),
            Instr::And => String::from_str("and"),
            Instr::Or => String::from_str("or"),
            Instr::LessThanInt => String::from_str("less_than_int"),
            Instr::LessThanOrEqualInt => String::from_str("less_than_or_equal_int"),
            Instr::GreaterThanInt => String::from_str("greater_than_int"),
            Instr::GreaterThanOrEqualInt => String::from_str("greater_than_or_equal_int"),
            Instr::LessThanFloat => String::from_str("less_than_float"),
            Instr::LessThanOrEqualFloat => String::from_str("less_than_or_equal_float"),
            Instr::GreaterThanFloat => String::from_str("greater_than_float"),
            Instr::GreaterThanOrEqualFloat => String::from_str("greater_than_or_equal_float"),
            Instr::EqualInt => String::from_str("equal_int"),
            Instr::EqualFloat => String::from_str("equal_float"),
            Instr::EqualBool => String::from_str("equal_bool"),
            Instr::EqualString => String::from_str("equal_string"),
            Instr::CallFuncObj => String::from_str("call_func_obj"),
            Instr::Stop => String::from_str("stop"),
            Instr::Panic => String::from_str("panic"),
            Instr::DeconstructStruct => String::from_str("deconstruct_struct"),
            Instr::DeconstructVariant => String::from_str("deconstruct_variant"),
            Instr::GetIdx => String::from_str("get_index"),
            Instr::SetIdx => String::from_str("set_index"),
            Instr::ArrayAppend => String::from_str("array_append"),
            Instr::ArrayLength => String::from_str("array_len"),
            Instr::ArrayPop => String::from_str("array_pop"),
            Instr::ConcatStrings => String::from_str("concat_strings"),
            Instr::IntToString => String::from_str("int_to_string"),
            Instr::FloatToString => String::from_str("float_to_string"),
            Instr::LoadLib => String::from_str("load_lib"),
            Instr::LoadForeignFunc => String::from_str("load_foreign_func"),
            Instr::LoadOffset(n) => {
                let mut s = String::from_str("load_offset ");
                s.append(i64_to_decimal(*n as i64).as_str());
                s
            },
            Instr::StoreOffset(n) => {
                let mut s = String::from_str("store_offset ");
                s.append(i64_to_decimal(*n as i64).as_str());
                s
            },
            Instr::PushNil(n) => {
                let mut s = String::from_str("push_nil ");
                s.append(u64_to_decimal(*n as u64).as_str());
                s
            },
            Instr::PushInt(n) => {
                let mut s = String::from_str("push_int ");
                s.append(i64_to_decimal(*n as i64).as_str());
                s
            },
            Instr::CallExtern(n) => {
                let mut s = String::from_str("call_extern ");
                s.append(u64_to_decimal(*n as u64).as_str());
                s
            },
            Instr::Return(n) => {
                let mut s = String::from_str("return ");
                s.append(u64_to_decimal(*n as u64).as_str());
                s
            },
            Instr::HostFunc(n) => {
                let mut s = String::from_str("call_host ");
                s.append(u64_to_decimal(*n as u64).as_str());
                s
            },
            Instr::ConstructStruct(n) => {
                let mut s = String::from_str("construct_struct ");
                s.append(u64_to_decimal(*n as u64).as_str());
                s
            },
            Instr::ConstructArray(n) => {
                let mut s = String::from_str("construct_array ");
                s.append(u64_to_decimal(*n as u64).as_str());
                s
            },
            Instr::GetField(n) => {
                let mut s = String::from_str("get_field ");
                s.append(u64_to_decimal(*n as u64).as_str());
                s
            },
            Instr::SetField(n) => {
                let mut s = String::from_str("set_field ");
                s.append(u64_to_decimal(*n as u64).as_str());
                s
            },
            Instr::ConstructVariant { tag } => {
                let mut s = String::from_str("construct_variant ");
                s.append(u64_to_decimal(*tag as u64).as_str());
                s
            },
            Instr::PushBool(b) => {
                if *b {
                    String::from_str("push_bool true")
                } else {
                    String::from_str("push_bool false")
                }
            },
            Instr::PushFloat(f) => {
                let mut s = String::from_str("push_float ");
                s.append(f.as_str());
                s
            },
            Instr::PushString(st) => {
                let mut s = String::from_str("push_string ");
                s.append(str_to_debug(st.as_str()).as_str());
                s
            },
            Instr::Jump(l) => {
                let mut s = String::from_str("jump ");
                s.append(l.as_str());
                s
            },
            Instr::JumpIf(l) => {
                let mut s = String::from_str("jump_if ");
                s.append(l.as_str());
                s
            },
            Instr::Call(nargs, l) => {
                let mut s = String::from_str("call ");
                s.append(u64_to_decimal(*nargs as u64).as_str());
                s.append(" ");
                s.append(l.as_str());
                s
            },
            Instr::MakeClosure { func_addr } => {
                let mut s = String::from_str("make_closure ");
                s.append(func_addr.as_str());
                s
            },
        }
    }
}

/// Mapping from label to the program counter it stands for after linking.
pub type LabelMap = StringHashMap<usize>;

/// Number of instruction lines among the first `k` lines.
pub open spec fn instr_count(items: Seq<Line>, k: int) -> int
    decreases k,
{
    if k <= 0 {
        0
    } else {
        instr_count(items, k - 1) + if items[k - 1] is Instr {
            1int
        } else {
            0int
        }
    }
}

/// The label map after scanning the first `k` lines: each label stands for
/// the number of instructions before it (a later definition overrides an
/// earlier one, as the scan does).
pub open spec fn spec_label_map(items: Seq<Line>, k: int) -> Map<Seq<char>, usize>
    decreases k,
{
    if k <= 0 {
        Map::empty()
    } else {
        let m = spec_label_map(items, k - 1);
        match items[k - 1] {
            Line::Label(l) => m.insert(l@, instr_count(items, k - 1) as usize),
            Line::Instr { .. } => m,
        }
    }
}

pub proof fn lemma_instr_count_bounds(items: Seq<Line>, k: int)
    requires
        0 <= k <= items.len(),
    ensures
        0 <= instr_count(items, k) <= k,
    decreases k,
{
    if k > 0 {
        lemma_instr_count_bounds(items, k - 1);
    }
}

pub proof fn lemma_instr_count_mono(items: Seq<Line>, k1: int, k2: int)
    requires
        0 <= k1 <= k2 <= items.len(),
    ensures
        instr_count(items, k1) <= instr_count(items, k2),
    decreases k2,
{
    if k1 < k2 {
        lemma_instr_count_mono(items, k1, k2 - 1);
    }
}

/// Every label of the stream is followed by at least one instruction line.
/// A translated program has this shape: every function body ends in a
/// `Return` or `Stop` after its labels.
pub open spec fn no_trailing_labels(items: Seq<Line>) -> bool {
    forall|k: int|
        0 <= k < items.len() && (#[trigger] items[k]) is Label ==> exists|m: int|
            k < m < items.len() && (#[trigger] items[m]) is Instr
}

/// Every pc in the label map is at most the total number of instructions.
pub proof fn lemma_label_map_bounded(items: Seq<Line>, k: int, l: Seq<char>)
    requires
        0 <= k <= items.len(),
        spec_label_map(items, k).contains_key(l),
    ensures
        spec_label_map(items, k)[l] <= instr_count(items, items.len() as int),
    decreases k,
{
    if k > 0 {
        let m = spec_label_map(items, k - 1);
        match items[k - 1] {
            Line::Label(lab) => {
                if lab@ == l {
                    lemma_instr_count_bounds(items, k - 1);
                    lemma_instr_count_mono(items, k - 1, items.len() as int);
                } else {
                    lemma_label_map_bounded(items, k - 1, l);
                }
            },
            Line::Instr { .. } => {
                lemma_label_map_bounded(items, k - 1, l);
            },
        }
    }
}

/// Whether the link step can resolve this instruction: its label is defined
/// and its constants are pooled.
pub open spec fn instr_linkable(
    i: Instr,
    m: Map<Seq<char>, usize>,
    ints: Seq<i64>,
    floats: Seq<Seq<char>>,
    strs: Seq<Seq<char>>,
) -> bool {
    match i {
        Instr::PushInt(v) => ints.contains(v),
        Instr::PushFloat(f) => floats.contains(f@),
        Instr::PushString(s) => strs.contains(s@),
        Instr::Jump(l) => m.contains_key(l@),
        Instr::JumpIf(l) => m.contains_key(l@),
        Instr::Call(nargs, l) => m.contains_key(l@) && nargs <= u32::MAX,
        Instr::MakeClosure { func_addr } => m.contains_key(func_addr@),
        Instr::ConstructArray(n) => n <= u32::MAX,
        _ => true,
    }
}

pub open spec fn line_linkable(
    line: Line,
    m: Map<Seq<char>, usize>,
    ints: Seq<i64>,
    floats: Seq<Seq<char>>,
    strs: Seq<Seq<char>>,
) -> bool {
    match line {
        Line::Instr { instr, .. } => instr_linkable(instr, m, ints, floats, strs),
        Line::Label(_) => true,
    }
}

/// The pc-indexed form of a labeled instruction.
pub open spec fn spec_link_instr(
    i: Instr,
    m: Map<Seq<char>, usize>,
    ints: Seq<i64>,
    floats: Seq<Seq<char>>,
    strs: Seq<Seq<char>>,
) -> VmInstr {
    match i {
        Instr::Pop => VmInstr::Pop,
        Instr::Duplicate => VmInstr::Duplicate,
        Instr::LoadOffset(k) => VmInstr::LoadOffset(k),
        Instr::StoreOffset(k) => VmInstr::StoreOffset(k),
        Instr::PushNil(n) => VmInstr::PushNil(n),
        Instr::PushBool(b) => VmInstr::PushBool(b),
        Instr::PushInt(v) => VmInstr::PushInt(int_id(ints, v) as u32),
        Instr::PushFloat(f) => VmInstr::PushFloat(str_id(floats, f@) as u32),
        Instr::PushString(s) => VmInstr::PushString(str_id(strs, s@) as u32),
        Instr::AddInt => VmInstr::AddInt,
        Instr::SubtractInt => VmInstr::SubtractInt,
        Instr::MultiplyInt => VmInstr::MultiplyInt,
        Instr::DivideInt => VmInstr::DivideInt,
        Instr::PowerInt => VmInstr::PowerInt,
        Instr::Modulo => VmInstr::Modulo,
        Instr::AddFloat => VmInstr::AddFloat,
        Instr::SubtractFloat => VmInstr::SubtractFloat,
        Instr::MultiplyFloat => VmInstr::MultiplyFloat,
        Instr::DivideFloat => VmInstr::DivideFloat,
        Instr::PowerFloat => VmInstr::PowerFloat,
        Instr::SquareRoot => VmInstr::SquareRoot,
        Instr::Not => VmInstr::Not,
        Instr::And => VmInstr::And,
        Instr::Or => VmInstr::Or,
        Instr::LessThanInt => VmInstr::LessThanInt,
        Instr::LessThanOrEqualInt => VmInstr::LessThanOrEqualInt,
        Instr::GreaterThanInt => VmInstr::GreaterThanInt,
        Instr::GreaterThanOrEqualInt => VmInstr::GreaterThanOrEqualInt,
        Instr::LessThanFloat => VmInstr::LessThanFloat,
        Instr::LessThanOrEqualFloat => VmInstr::LessThanOrEqualFloat,
        Instr::GreaterThanFloat => VmInstr::GreaterThanFloat,
        Instr::GreaterThanOrEqualFloat => VmInstr::GreaterThanOrEqualFloat,
        Instr::EqualInt => VmInstr::EqualInt,
        Instr::EqualFloat => VmInstr::EqualFloat,
        Instr::EqualBool => VmInstr::EqualBool,
        Instr::EqualString => VmInstr::EqualString,
        Instr::Jump(l) => VmInstr::Jump(m[l@]),
        Instr::JumpIf(l) => VmInstr::JumpIf(m[l@]),
        Instr::Call(nargs, l) => VmInstr::Call { nargs: nargs as u32, target: m[l@] },
        Instr::CallFuncObj => VmInstr::CallFuncObj,
        Instr::CallExtern(id) => VmInstr::CallExtern(id),
        Instr::Return(n) => VmInstr::Return(n),
        Instr::Stop => VmInstr::Stop,
        Instr::HostFunc(n) => VmInstr::HostFunc(n),
        Instr::Panic => VmInstr::Panic,
        Instr::ConstructStruct(n) => VmInstr::ConstructStruct(n),
        Instr::ConstructArray(n) => VmInstr::ConstructArray(n as u32),
        Instr::ConstructVariant { tag } => VmInstr::ConstructVariant { tag },
        Instr::DeconstructStruct => VmInstr::DeconstructStruct,
        Instr::DeconstructVariant => VmInstr::DeconstructVariant,
        Instr::GetField(n) => VmInstr::GetField(n),
        Instr::SetField(n) => VmInstr::SetField(n),
        Instr::GetIdx => VmInstr::GetIdx,
        Instr::SetIdx => VmInstr::SetIdx,
        Instr::MakeClosure { func_addr } => VmInstr::MakeClosure { func_addr: m[func_addr@] },
        Instr::ArrayAppend => VmInstr::ArrayAppend,
        Instr::ArrayLength => VmInstr::ArrayLength,
        Instr::ArrayPop => VmInstr::ArrayPop,
        Instr::ConcatStrings => VmInstr::ConcatStrings,
        Instr::IntToString => VmInstr::IntToString,
        Instr::FloatToString => VmInstr::FloatToString,
        Instr::LoadLib => VmInstr::LoadLib,
        Instr::LoadForeignFunc => VmInstr::LoadForeignFunc,
    }
}

/// The linked program for the first `k` lines: the instruction lines in
/// order, each in pc-indexed form (labels contribute nothing).
pub open spec fn spec_linked(
    items: Seq<Line>,
    k: int,
    m: Map<Seq<char>, usize>,
    ints: Seq<i64>,
    floats: Seq<Seq<char>>,
    strs: Seq<Seq<char>>,
) -> Seq<VmInstr>
    decreases k,
{
    if k <= 0 {
        Seq::empty()
    } else {
        let pre = spec_linked(items, k - 1, m, ints, floats, strs);
        match items[k - 1] {
            Line::Instr { instr, .. } => pre.push(spec_link_instr(instr, m, ints, floats, strs)),
            Line::Label(_) => pre,
        }
    }
}

pub proof fn lemma_spec_linked_len(
    items: Seq<Line>,
    k: int,
    m: Map<Seq<char>, usize>,
    ints: Seq<i64>,
    floats: Seq<Seq<char>>,
    strs: Seq<Seq<char>>,
)
    requires
        0 <= k <= items.len(),
    ensures
        spec_linked(items, k, m, ints, floats, strs).len() == instr_count(items, k),
    decreases k,
{
    if k > 0 {
        lemma_spec_linked_len(items, k - 1, m, ints, floats, strs);
    }
}

/// Every element of the linked stream is the linked form of some
/// instruction line of the source stream.
pub proof fn lemma_spec_linked_from(
    items: Seq<Line>,
    k: int,
    m: Map<Seq<char>, usize>,
    ints: Seq<i64>,
    floats: Seq<Seq<char>>,
    strs: Seq<Seq<char>>,
    j: int,
)
    requires
        0 <= k <= items.len(),
        0 <= j < spec_linked(items, k, m, ints, floats, strs).len(),
    ensures
        exists|i: int|
            0 <= i < k && (#[trigger] items[i] matches Line::Instr { instr, .. } && spec_linked(
                items,
                k,
                m,
                ints,
                floats,
                strs,
            )[j] == spec_link_instr(instr, m, ints, floats, strs)),
    decreases k,
{
    let whole = spec_linked(items, k, m, ints, floats, strs);
    let pre = spec_linked(items, k - 1, m, ints, floats, strs);
    if j < pre.len() {
        lemma_spec_linked_from(items, k - 1, m, ints, floats, strs, j);
        let i = choose|i: int|
            0 <= i < k - 1 && (#[trigger] items[i] matches Line::Instr { instr, .. } && pre[j]
                == spec_link_instr(instr, m, ints, floats, strs));
        assert(items[i] is Instr);
        assert(whole[j] == pre[j]);
    } else {
        assert(items[k - 1] is Instr);
    }
}

/// Under `no_trailing_labels`, every pc in the label map is strictly below
/// the total number of instructions.
pub proof fn lemma_label_map_strict(items: Seq<Line>, k: int, l: Seq<char>)
    requires
        0 <= k <= items.len(),
        spec_label_map(items, k).contains_key(l),
        no_trailing_labels(items),
    ensures
        spec_label_map(items, k)[l] < instr_count(items, items.len() as int),
    decreases k,
{
    if k > 0 {
        match items[k - 1] {
            Line::Label(lab) => {
                if lab@ == l {
                    assert(items[k - 1] is Label);
                    assert(exists|m: int|
                        k - 1 < m < items.len() && (#[trigger] items[m]) is Instr);
                    let m = choose|m: int|
                        k - 1 < m < items.len() && (#[trigger] items[m]) is Instr;
                    lemma_instr_count_bounds(items, k - 1);
                    lemma_instr_count_mono(items, k - 1, m);
                    assert(instr_count(items, m + 1) == instr_count(items, m) + 1);
                    lemma_instr_count_mono(items, m + 1, items.len() as int);
                } else {
                    lemma_label_map_strict(items, k - 1, l);
                }
            },
            Line::Instr { .. } => {
                lemma_label_map_strict(items, k - 1, l);
            },
        }
    }
}

/// Every `Jump`, `JumpIf`, `Call` and `MakeClosure` target of a linked
/// program is a pc no greater than the length of the instruction stream —
/// and strictly below it whenever no label of the stream is trailing, as in
/// translated programs. (At the boundary case of a target equal to the
/// length, the machine latches an error rather than running off the end.)
pub proof fn lemma_linked_targets_bounded(
    items: Seq<Line>,
    ints: Seq<i64>,
    floats: Seq<Seq<char>>,
    strs: Seq<Seq<char>>,
    j: int,
)
    requires
        forall|k: int|
            0 <= k < items.len() ==> line_linkable(
                #[trigger] items[k],
                spec_label_map(items, items.len() as int),
                ints,
                floats,
                strs,
            ),
        0 <= j < spec_linked(
            items,
            items.len() as int,
            spec_label_map(items, items.len() as int),
            ints,
            floats,
            strs,
        ).len(),
    ensures
        ({
            let m = spec_label_map(items, items.len() as int);
            let prog = spec_linked(items, items.len() as int, m, ints, floats, strs);
            match prog[j] {
                VmInstr::Jump(t) => t <= prog.len() && (no_trailing_labels(items) ==> t
                    < prog.len()),
                VmInstr::JumpIf(t) => t <= prog.len() && (no_trailing_labels(items) ==> t
                    < prog.len()),
                VmInstr::Call { target, .. } => target <= prog.len() && (no_trailing_labels(items)
                    ==> target < prog.len()),
                VmInstr::MakeClosure { func_addr } => func_addr <= prog.len() && (
                no_trailing_labels(items) ==> func_addr < prog.len()),
                _ => true,
            }
        }),
{
    let m = spec_label_map(items, items.len() as int);
    let prog = spec_linked(items, items.len() as int, m, ints, floats, strs);
    lemma_spec_linked_len(items, items.len() as int, m, ints, floats, strs);
    lemma_spec_linked_from(items, items.len() as int, m, ints, floats, strs, j);
    let i = choose|i: int|
        0 <= i < items.len() && (#[trigger] items[i] matches Line::Instr { instr, .. } && prog[j]
            == spec_link_instr(instr, m, ints, floats, strs));
    match items[i] {
        Line::Instr { instr, .. } => match instr {
            Instr::Jump(l) => {
                lemma_label_map_bounded(items, items.len() as int, l@);
                if no_trailing_labels(items) {
                    lemma_label_map_strict(items, items.len() as int, l@);
                }
            },
            Instr::JumpIf(l) => {
                lemma_label_map_bounded(items, items.len() as int, l@);
                if no_trailing_labels(items) {
                    lemma_label_map_strict(items, items.len() as int, l@);
                }
            },
            Instr::Call(_, l) => {
                lemma_label_map_bounded(items, items.len() as int, l@);
                if no_trailing_labels(items) {
                    lemma_label_map_strict(items, items.len() as int, l@);
                }
            },
            Instr::MakeClosure { func_addr } => {
                lemma_label_map_bounded(items, items.len() as int, func_addr@);
                if no_trailing_labels(items) {
                    lemma_label_map_strict(items, items.len() as int, func_addr@);
                }
            },
            _ => {},
        },
        Line::Label(_) => {},
    }
}

/// Resolves one labeled instruction against the label map and the pools.
/// The translator interns constants eagerly and emits jumps only to labels
/// it lays down, so a resolvable instruction is a precondition here.
pub fn instr_to_vminstr(
    instr: &Instr,
    label_to_idx: &LabelMap,
    constants: &ConstantsHolder,
) -> (r: VmInstr)
    requires
        constants.int_constants@.len() <= u32::MAX,
        constants.float_constants@.len() <= u32::MAX,
        constants.string_constants@.len() <= u32::MAX,
        instr_linkable(
            *instr,
            label_to_idx@,
            constants.int_constants@,
            constants.float_constants@,
            constants.string_constants@,
        ),
    ensures
        r == spec_link_instr(
            *instr,
            label_to_idx@,
            constants.int_constants@,
            constants.float_constants@,
            constants.string_constants@,
        ),
{
    match instr {
        Instr::Pop => VmInstr::Pop,
        Instr::Duplicate => VmInstr::Duplicate,
        Instr::LoadOffset(k) => VmInstr::LoadOffset(*k),
        Instr::StoreOffset(k) => VmInstr::StoreOffset(*k),
        Instr::PushNil(n) => VmInstr::PushNil(*n),
        Instr::PushBool(b) => VmInstr::PushBool(*b),
        Instr::PushInt(v) => {
            let id = constants.int_constants.try_get_id(*v).unwrap();
            proof {
                lemma_first_index_int_is_id(constants.int_constants@, *v, id as int);
            }
            VmInstr::PushInt(id)
        },
        Instr::PushFloat(f) => {
            let id = constants.float_constants.try_get_id(f.as_str()).unwrap();
            proof {
                lemma_first_index_str_is_id(constants.float_constants@, f@, id as int);
            }
            VmInstr::PushFloat(id)
        },
        Instr::PushString(s) => {
            let id = constants.string_constants.try_get_id(s.as_str()).unwrap();
            proof {
                lemma_first_index_str_is_id(constants.string_constants@, s@, id as int);
            }
            VmInstr::PushString(id)
        },
        Instr::AddInt => VmInstr::AddInt,
        Instr::SubtractInt => VmInstr::SubtractInt,
        Instr::MultiplyInt => VmInstr::MultiplyInt,
        Instr::DivideInt => VmInstr::DivideInt,
        Instr::PowerInt => VmInstr::PowerInt,
        Instr::Modulo => VmInstr::Modulo,
        Instr::AddFloat => VmInstr::AddFloat,
        Instr::SubtractFloat => VmInstr::SubtractFloat,
        Instr::MultiplyFloat => VmInstr::MultiplyFloat,
        Instr::DivideFloat => VmInstr::DivideFloat,
        Instr::PowerFloat => VmInstr::PowerFloat,
        Instr::SquareRoot => VmInstr::SquareRoot,
        Instr::Not => VmInstr::Not,
        Instr::And => VmInstr::And,
        Instr::Or => VmInstr::Or,
        Instr::LessThanInt => VmInstr::LessThanInt,
        Instr::LessThanOrEqualInt => VmInstr::LessThanOrEqualInt,
        Instr::GreaterThanInt => VmInstr::GreaterThanInt,
        Instr::GreaterThanOrEqualInt => VmInstr::GreaterThanOrEqualInt,
        Instr::LessThanFloat => VmInstr::LessThanFloat,
        Instr::LessThanOrEqualFloat => VmInstr::LessThanOrEqualFloat,
        Instr::GreaterThanFloat => VmInstr::GreaterThanFloat,
        Instr::GreaterThanOrEqualFloat => VmInstr::GreaterThanOrEqualFloat,
        Instr::EqualInt => VmInstr::EqualInt,
        Instr::EqualFloat => VmInstr::EqualFloat,
        Instr::EqualBool => VmInstr::EqualBool,
        Instr::EqualString => VmInstr::EqualString,
        Instr::Jump(l) => VmInstr::Jump(*label_to_idx.get(l.as_str()).unwrap()),
        Instr::JumpIf(l) => VmInstr::JumpIf(*label_to_idx.get(l.as_str()).unwrap()),
        Instr::Call(nargs, l) => VmInstr::Call {
            nargs: *nargs as u32,
            target: *label_to_idx.get(l.as_str()).unwrap(),
        },
        Instr::CallFuncObj => VmInstr::CallFuncObj,
        Instr::CallExtern(id) => VmInstr::CallExtern(*id),
        Instr::Return(n) => VmInstr::Return(*n),
        Instr::Stop => VmInstr::Stop,
        Instr::HostFunc(n) => VmInstr::HostFunc(*n),
        Instr::Panic => VmInstr::Panic,
        Instr::ConstructStruct(n) => VmInstr::ConstructStruct(*n),
        Instr::ConstructArray(n) => VmInstr::ConstructArray(*n as u32),
        Instr::ConstructVariant { tag } => VmInstr::ConstructVariant { tag: *tag },
        Instr::DeconstructStruct => VmInstr::DeconstructStruct,
        Instr::DeconstructVariant => VmInstr::DeconstructVariant,
        Instr::GetField(n) => VmInstr::GetField(*n),
        Instr::SetField(n) => VmInstr::SetField(*n),
        Instr::GetIdx => VmInstr::GetIdx,
        Instr::SetIdx => VmInstr::SetIdx,
        Instr::MakeClosure { func_addr } => VmInstr::MakeClosure {
            func_addr: *label_to_idx.get(func_addr.as_str()).unwrap(),
        },
        Instr::ArrayAppend => VmInstr::ArrayAppend,
        Instr::ArrayLength => VmInstr::ArrayLength,
        Instr::ArrayPop => VmInstr::ArrayPop,
        Instr::ConcatStrings => VmInstr::ConcatStrings,
        Instr::IntToString => VmInstr::IntToString,
        Instr::FloatToString => VmInstr::FloatToString,
        Instr::LoadLib => VmInstr::LoadLib,
        Instr::LoadForeignFunc => VmInstr::LoadForeignFunc,
    }
}

/// Removes the labels from a translated stream: computes each label's pc
/// (the number of instructions before it), then rewrites every instruction
/// into its pc-indexed form.
pub fn remove_labels(items: &Vec<Line>, constants: &ConstantsHolder) -> (r: (
    Vec<VmInstr>,
    LabelMap,
))
    requires
        constants.int_constants@.len() <= u32::MAX,
        constants.float_constants@.len() <= u32::MAX,
        constants.string_constants@.len() <= u32::MAX,
        forall|k: int|
            0 <= k < items@.len() ==> line_linkable(
                #[trigger] items@[k],
                spec_label_map(items@, items@.len() as int),
                constants.int_constants@,
                constants.float_constants@,
                constants.string_constants@,
            ),
    ensures
        r.1@ == spec_label_map(items@, items@.len() as int),
        r.0@ == spec_linked(
            items@,
            items@.len() as int,
            r.1@,
            constants.int_constants@,
            constants.float_constants@,
            constants.string_constants@,
        ),
        r.0@.len() == instr_count(items@, items@.len() as int),
{
    let ghost ints = constants.int_constants@;
    let ghost floats = constants.float_constants@;
    let ghost strs = constants.string_constants@;

    let mut label_to_idx: LabelMap = StringHashMap::new();
    let mut offset: usize = 0;
    let mut i: usize = 0;
    while i < items.len()
        invariant
            i <= items@.len(),
            offset == instr_count(items@, i as int),
            label_to_idx@ == spec_label_map(items@, i as int),
        decreases items@.len() - i,
    {
        proof {
            lemma_instr_count_bounds(items@, i as int);
            lemma_instr_count_bounds(items@, i + 1);
        }
        match &items[i] {
            Line::Instr { .. } => {
                offset = offset + 1;
            },
            Line::Label(label) => {
                label_to_idx.insert(label.clone(), offset);
            },
        }
        i += 1;
    }
    let ghost full_map = label_to_idx@;

    let mut instructions: Vec<VmInstr> = Vec::new();
    let mut j: usize = 0;
    while j < items.len()
        invariant
            j <= items@.len(),
            full_map == spec_label_map(items@, items@.len() as int),
            label_to_idx@ == full_map,
            constants.int_constants@ == ints,
            constants.float_constants@ == floats,
            constants.string_constants@ == strs,
            ints.len() <= u32::MAX,
            floats.len() <= u32::MAX,
            strs.len() <= u32::MAX,
            forall|k: int|
                0 <= k < items@.len() ==> line_linkable(
                    #[trigger] items@[k],
                    full_map,
                    ints,
                    floats,
                    strs,
                ),
            instructions@ == spec_linked(items@, j as int, full_map, ints, floats, strs),
        decreases items@.len() - j,
    {
        match &items[j] {
            Line::Instr { instr, .. } => {
                let vi = instr_to_vminstr(instr, &label_to_idx, constants);
                instructions.push(vi);
            },
            Line::Label(_) => {},
        }
        j += 1;
    }
    proof {
        lemma_spec_linked_len(items@, items@.len() as int, full_map, ints, floats, strs);
    }
    (instructions, label_to_idx)
}

/// Strips a trailing `:` from a label definition written in textual form.
pub fn _get_label(s: &str) -> (r: Option<String>)
    ensures
        match r {
            Some(l) => s@.len() > 0 && s@.last() == ':' && l@ == s@.take(s@.len() - 1),
            None => s@.len() == 0 || s@.last() != ':',
        },
{
    let n = s.unicode_len();
    if n > 0 && s.get_char(n - 1) == ':' {
        let l = s.substring_char(0, n - 1);
        assert(l@ =~= s@.take(s@.len() - 1));
        Some(l.to_owned())
    } else {
        None
    }
}

} // verus!
