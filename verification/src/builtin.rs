//! The built-in operations and primitive types of the language: their
//! names, their type signatures, and their name-level type keys.

use vstd::prelude::*;
use crate::typecheck::{FuncSig, Nominal, PotentialType, Reason, Ty, TypeKey, TypeVar};
use heck::ToSnakeCase;

verus! {

/// What `heck`'s snake-case conversion produces for a camel-case name: a
/// function of the characters alone.
pub uninterp spec fn snake_of(s: Seq<char>) -> Seq<char>;

/// Relies on `heck::ToSnakeCase::to_snake_case`: the snake_case form of the
/// name, a function of its characters alone.
#[verifier::external_body]
fn to_snake(s: &str) -> (r: String)
    ensures
        r@ == snake_of(s@),
{
    s.to_snake_case()
}

/// A built-in operation of the language.
#[derive(Debug, Copy, Clone, PartialEq, Eq, Structural, Hash)]
pub enum BuiltinOperation {
    AddInt,
    SubtractInt,
    MultiplyInt,
    DivideInt,
    PowerInt,
    SqrtInt,
    Modulo,
    AddFloat,
    SubtractFloat,
    MultiplyFloat,
    DivideFloat,
    PowerFloat,
    SqrtFloat,
    LessThanInt,
    LessThanOrEqualInt,
    GreaterThanInt,
    GreaterThanOrEqualInt,
    LessThanFloat,
    LessThanOrEqualFloat,
    GreaterThanFloat,
    GreaterThanOrEqualFloat,
    EqualInt,
    EqualFloat,
    EqualString,
    IntToString,
    FloatToString,
    ConcatStrings,
    ArrayPush,
    ArrayLength,
    ArrayPop,
    Panic,
    Newline,
}

/// The camel-case name of each operation's variant.
pub open spec fn spec_variant_name(op: BuiltinOperation) -> Seq<char> {
    match op {
        BuiltinOperation::AddInt => "AddInt"@,
        BuiltinOperation::SubtractInt => "SubtractInt"@,
        BuiltinOperation::MultiplyInt => "MultiplyInt"@,
        BuiltinOperation::DivideInt => "DivideInt"@,
        BuiltinOperation::PowerInt => "PowerInt"@,
        BuiltinOperation::SqrtInt => "SqrtInt"@,
        BuiltinOperation::Modulo => "Modulo"@,
        BuiltinOperation::AddFloat => "AddFloat"@,
        BuiltinOperation::SubtractFloat => "SubtractFloat"@,
        BuiltinOperation::MultiplyFloat => "MultiplyFloat"@,
        BuiltinOperation::DivideFloat => "DivideFloat"@,
        BuiltinOperation::PowerFloat => "PowerFloat"@,
        BuiltinOperation::SqrtFloat => "SqrtFloat"@,
        BuiltinOperation::LessThanInt => "LessThanInt"@,
        BuiltinOperation::LessThanOrEqualInt => "LessThanOrEqualInt"@,
        BuiltinOperation::GreaterThanInt => "GreaterThanInt"@,
        BuiltinOperation::GreaterThanOrEqualInt => "GreaterThanOrEqualInt"@,
        BuiltinOperation::LessThanFloat => "LessThanFloat"@,
        BuiltinOperation::LessThanOrEqualFloat => "LessThanOrEqualFloat"@,
        BuiltinOperation::GreaterThanFloat => "GreaterThanFloat"@,
        BuiltinOperation::GreaterThanOrEqualFloat => "GreaterThanOrEqualFloat"@,
        BuiltinOperation::EqualInt => "EqualInt"@,
        BuiltinOperation::EqualFloat => "EqualFloat"@,
        BuiltinOperation::EqualString => "EqualString"@,
        BuiltinOperation::IntToString => "IntToString"@,
        BuiltinOperation::FloatToString => "FloatToString"@,
        BuiltinOperation::ConcatStrings => "ConcatStrings"@,
        BuiltinOperation::ArrayPush => "ArrayPush"@,
        BuiltinOperation::ArrayLength => "ArrayLength"@,
        BuiltinOperation::ArrayPop => "ArrayPop"@,
        BuiltinOperation::Panic => "Panic"@,
        BuiltinOperation::Newline => "Newline"@,
    }
}

/// What the signature of each built-in operation must say.
pub open spec fn sig_matches(op: BuiltinOperation, p: PotentialType) -> bool {
    match op {
        BuiltinOperation::AddInt
        | BuiltinOperation::SubtractInt
        | BuiltinOperation::MultiplyInt
        | BuiltinOperation::DivideInt
        | BuiltinOperation::Modulo
        | BuiltinOperation::PowerInt => p matches PotentialType::Func(sig) && sig.params@ == seq![
            Ty::Int,
            Ty::Int,
        ] && sig.ret == Ty::Int,
        BuiltinOperation::SqrtInt => p matches PotentialType::Func(sig) && sig.params@ == seq![
            Ty::Int,
        ] && sig.ret == Ty::Int,
        BuiltinOperation::AddFloat
        | BuiltinOperation::SubtractFloat
        | BuiltinOperation::MultiplyFloat
        | BuiltinOperation::DivideFloat
        | BuiltinOperation::PowerFloat => p matches PotentialType::Func(sig) && sig.params@
            == seq![Ty::Float, Ty::Float] && sig.ret == Ty::Float,
        BuiltinOperation::SqrtFloat => p matches PotentialType::Func(sig) && sig.params@ == seq![
            Ty::Float,
        ] && sig.ret == Ty::Float,
        BuiltinOperation::LessThanInt
        | BuiltinOperation::LessThanOrEqualInt
        | BuiltinOperation::GreaterThanInt
        | BuiltinOperation::GreaterThanOrEqualInt
        | BuiltinOperation::EqualInt => p matches PotentialType::Func(sig) && sig.params@ == seq![
            Ty::Int,
            Ty::Int,
        ] && sig.ret == Ty::Bool,
        BuiltinOperation::LessThanFloat
        | BuiltinOperation::LessThanOrEqualFloat
        | BuiltinOperation::GreaterThanFloat
        | BuiltinOperation::GreaterThanOrEqualFloat
        | BuiltinOperation::EqualFloat => p matches PotentialType::Func(sig) && sig.params@
            == seq![Ty::Float, Ty::Float] && sig.ret == Ty::Bool,
        BuiltinOperation::EqualString => p matches PotentialType::Func(sig) && sig.params@
            == seq![Ty::Str, Ty::Str] && sig.ret == Ty::Bool,
        BuiltinOperation::IntToString => p matches PotentialType::Func(sig) && sig.params@
            == seq![Ty::Int] && sig.ret == Ty::Str,
        BuiltinOperation::FloatToString => p matches PotentialType::Func(sig) && sig.params@
            == seq![Ty::Float] && sig.ret == Ty::Str,
        BuiltinOperation::ConcatStrings => p matches PotentialType::Func(sig) && sig.params@
            == seq![Ty::Str, Ty::Str] && sig.ret == Ty::Str,
        BuiltinOperation::ArrayPush => p matches PotentialType::Func(sig) && sig.params@.len() == 2
            && (sig.params@[0] matches Ty::Arr(e) && *e == Ty::Poly(0)) && sig.params@[1]
            == Ty::Poly(0) && sig.ret == Ty::Void,
        BuiltinOperation::ArrayLength => p matches PotentialType::Func(sig) && sig.params@.len()
            == 1 && (sig.params@[0] matches Ty::Arr(e) && *e == Ty::Poly(0)) && sig.ret == Ty::Int,
        BuiltinOperation::ArrayPop => p matches PotentialType::Func(sig) && sig.params@.len() == 1
            && (sig.params@[0] matches Ty::Arr(e) && *e == Ty::Poly(0)) && sig.ret == Ty::Void,
        BuiltinOperation::Panic => p matches PotentialType::Func(sig) && sig.params@ == seq![
            Ty::Str,
        ] && sig.ret == Ty::Never,
        BuiltinOperation::Newline => p == PotentialType::Atom(Ty::Str),
    }
}

fn params1(a: Ty) -> (r: Vec<Ty>)
    ensures
        r@ == seq![a],
{
    let mut r: Vec<Ty> = Vec::new();
    r.push(a);
    assert(r@ =~= seq![r@[0]]);
    r
}

fn params2(a: Ty, b: Ty) -> (r: Vec<Ty>)
    ensures
        r@ == seq![a, b],
{
    let mut r: Vec<Ty> = Vec::new();
    r.push(a);
    r.push(b);
    assert(r@ =~= seq![r@[0], r@[1]]);
    r
}

impl BuiltinOperation {
    /// Every operation, in declaration order.
    pub fn enumerate() -> (r: Vec<Self>)
        ensures
            r@ == seq![
                BuiltinOperation::AddInt,
                BuiltinOperation::SubtractInt,
                BuiltinOperation::MultiplyInt,
                BuiltinOperation::DivideInt,
                BuiltinOperation::PowerInt,
                BuiltinOperation::SqrtInt,
                BuiltinOperation::Modulo,
                BuiltinOperation::AddFloat,
                BuiltinOperation::SubtractFloat,
                BuiltinOperation::MultiplyFloat,
                BuiltinOperation::DivideFloat,
                BuiltinOperation::PowerFloat,
                BuiltinOperation::SqrtFloat,
                BuiltinOperation::LessThanInt,
                BuiltinOperation::LessThanOrEqualInt,
                BuiltinOperation::GreaterThanInt,
                BuiltinOperation::GreaterThanOrEqualInt,
                BuiltinOperation::LessThanFloat,
                BuiltinOperation::LessThanOrEqualFloat,
                BuiltinOperation::GreaterThanFloat,
                BuiltinOperation::GreaterThanOrEqualFloat,
                BuiltinOperation::EqualInt,
                BuiltinOperation::EqualFloat,
                BuiltinOperation::EqualString,
                BuiltinOperation::IntToString,
                BuiltinOperation::FloatToString,
                BuiltinOperation::ConcatStrings,
                BuiltinOperation::ArrayPush,
                BuiltinOperation::ArrayLength,
                BuiltinOperation::ArrayPop,
                BuiltinOperation::Panic,
                BuiltinOperation::Newline,
            ],
    {
        let r = vec![
            BuiltinOperation::AddInt,
            BuiltinOperation::SubtractInt,
            BuiltinOperation::MultiplyInt,
            BuiltinOperation::DivideInt,
            BuiltinOperation::PowerInt,
            BuiltinOperation::SqrtInt,
            BuiltinOperation::Modulo,
            BuiltinOperation::AddFloat,
            BuiltinOperation::SubtractFloat,
            BuiltinOperation::MultiplyFloat,
            BuiltinOperation::DivideFloat,
            BuiltinOperation::PowerFloat,
            BuiltinOperation::SqrtFloat,
            BuiltinOperation::LessThanInt,
            BuiltinOperation::LessThanOrEqualInt,
            BuiltinOperation::GreaterThanInt,
            BuiltinOperation::GreaterThanOrEqualInt,
            BuiltinOperation::LessThanFloat,
            BuiltinOperation::LessThanOrEqualFloat,
            BuiltinOperation::GreaterThanFloat,
            BuiltinOperation::GreaterThanOrEqualFloat,
            BuiltinOperation::EqualInt,
            BuiltinOperation::EqualFloat,
            BuiltinOperation::EqualString,
            BuiltinOperation::IntToString,
            BuiltinOperation::FloatToString,
            BuiltinOperation::ConcatStrings,
            BuiltinOperation::ArrayPush,
            BuiltinOperation::ArrayLength,
            BuiltinOperation::ArrayPop,
            BuiltinOperation::Panic,
            BuiltinOperation::Newline,
        ];
        r
    }

    /// The camel-case name of the operation's variant.
    pub fn variant_name(&self) -> (r: &'static str)
        ensures
            r@ == spec_variant_name(*self),
    {
        match self {
            BuiltinOperation::AddInt => "AddInt",
            BuiltinOperation::SubtractInt => "SubtractInt",
            BuiltinOperation::MultiplyInt => "MultiplyInt",
            BuiltinOperation::DivideInt => "DivideInt",
            BuiltinOperation::PowerInt => "PowerInt",
            BuiltinOperation::SqrtInt => "SqrtInt",
            BuiltinOperation::Modulo => "Modulo",
            BuiltinOperation::AddFloat => "AddFloat",
            BuiltinOperation::SubtractFloat => "SubtractFloat",
            BuiltinOperation::MultiplyFloat => "MultiplyFloat",
            BuiltinOperation::DivideFloat => "DivideFloat",
            BuiltinOperation::PowerFloat => "PowerFloat",
            BuiltinOperation::SqrtFloat => "SqrtFloat",
            BuiltinOperation::LessThanInt => "LessThanInt",
            BuiltinOperation::LessThanOrEqualInt => "LessThanOrEqualInt",
            BuiltinOperation::GreaterThanInt => "GreaterThanInt",
            BuiltinOperation::GreaterThanOrEqualInt => "GreaterThanOrEqualInt",
            BuiltinOperation::LessThanFloat => "LessThanFloat",
            BuiltinOperation::LessThanOrEqualFloat => "LessThanOrEqualFloat",
            BuiltinOperation::GreaterThanFloat => "GreaterThanFloat",
            BuiltinOperation::GreaterThanOrEqualFloat => "GreaterThanOrEqualFloat",
            BuiltinOperation::EqualInt => "EqualInt",
            BuiltinOperation::EqualFloat => "EqualFloat",
            BuiltinOperation::EqualString => "EqualString",
            BuiltinOperation::IntToString => "IntToString",
            BuiltinOperation::FloatToString => "FloatToString",
            BuiltinOperation::ConcatStrings => "ConcatStrings",
            BuiltinOperation::ArrayPush => "ArrayPush",
            BuiltinOperation::ArrayLength => "ArrayLength",
            BuiltinOperation::ArrayPop => "ArrayPop",
            BuiltinOperation::Panic => "Panic",
            BuiltinOperation::Newline => "Newline",
        }
    }

    /// The surface name of the operation: the snake_case of its variant.
    pub fn name(&self) -> (r: String)
        ensures
            r@ == snake_of(spec_variant_name(*self)),
    {
        to_snake(self.variant_name())
    }

    /// The type of the operation, as a single-potential unification variable.
    pub fn type_signature(&self) -> (r: TypeVar)
        ensures
            r.potentials@.len() == 1,
            sig_matches(*self, r.potentials@[0]),
            r.reasons@ == seq![Reason::Builtin(*self)],
    {
        let reason = Reason::Builtin(*self);
        match self {
            BuiltinOperation::AddInt
            | BuiltinOperation::SubtractInt
            | BuiltinOperation::MultiplyInt
            | BuiltinOperation::DivideInt
            | BuiltinOperation::Modulo
            | BuiltinOperation::PowerInt => TypeVar::make_func(
                params2(Ty::Int, Ty::Int),
                Ty::Int,
                reason,
            ),
            BuiltinOperation::SqrtInt => TypeVar::make_func(params1(Ty::Int), Ty::Int, reason),
            BuiltinOperation::AddFloat
            | BuiltinOperation::SubtractFloat
            | BuiltinOperation::MultiplyFloat
            | BuiltinOperation::DivideFloat
            | BuiltinOperation::PowerFloat => TypeVar::make_func(
                params2(Ty::Float, Ty::Float),
                Ty::Float,
                reason,
            ),
            BuiltinOperation::SqrtFloat => TypeVar::make_func(params1(Ty::Float), Ty::Float, reason),
            BuiltinOperation::LessThanInt
            | BuiltinOperation::LessThanOrEqualInt
            | BuiltinOperation::GreaterThanInt
            | BuiltinOperation::GreaterThanOrEqualInt
            | BuiltinOperation::EqualInt => TypeVar::make_func(
                params2(Ty::Int, Ty::Int),
                Ty::Bool,
                reason,
            ),
            BuiltinOperation::LessThanFloat
            | BuiltinOperation::LessThanOrEqualFloat
            | BuiltinOperation::GreaterThanFloat
            | BuiltinOperation::GreaterThanOrEqualFloat
            | BuiltinOperation::EqualFloat => TypeVar::make_func(
                params2(Ty::Float, Ty::Float),
                Ty::Bool,
                reason,
            ),
            BuiltinOperation::EqualString => TypeVar::make_func(
                params2(Ty::Str, Ty::Str),
                Ty::Bool,
                reason,
            ),
            BuiltinOperation::IntToString => TypeVar::make_func(params1(Ty::Int), Ty::Str, reason),
            BuiltinOperation::FloatToString => TypeVar::make_func(
                params1(Ty::Float),
                Ty::Str,
                reason,
            ),
            BuiltinOperation::ConcatStrings => TypeVar::make_func(
                params2(Ty::Str, Ty::Str),
                Ty::Str,
                reason,
            ),
            BuiltinOperation::ArrayPush => TypeVar::make_func(
                params2(Ty::Arr(Box::new(Ty::Poly(0))), Ty::Poly(0)),
                Ty::Void,
                reason,
            ),
            BuiltinOperation::ArrayLength => TypeVar::make_func(
                params1(Ty::Arr(Box::new(Ty::Poly(0)))),
                Ty::Int,
                reason,
            ),
            BuiltinOperation::ArrayPop => TypeVar::make_func(
                params1(Ty::Arr(Box::new(Ty::Poly(0)))),
                Ty::Void,
                reason,
            ),
            BuiltinOperation::Panic => TypeVar::make_func(params1(Ty::Str), Ty::Never, reason),
            BuiltinOperation::Newline => {
                let r = TypeVar {
                    potentials: vec![PotentialType::Atom(Ty::Str)],
                    reasons: vec![reason],
                };
                assert(r.reasons@ =~= seq![reason]);
                r
            },
        }
    }
}

/// A built-in primitive type (or the family of tuples of a given arity).
#[derive(Debug, Copy, Clone, PartialEq, Eq, Structural, Hash)]
pub enum BuiltinType {
    Int,
    Bool,
    Float,
    Void,
    Str,
    Tuple(u8),
}

impl BuiltinType {
    /// The surface name of the type.
    pub fn name(&self) -> (r: &'static str)
        ensures
            match self {
                BuiltinType::Int => r@ == "int"@,
                BuiltinType::Bool => r@ == "bool"@,
                BuiltinType::Float => r@ == "float"@,
                BuiltinType::Void => r@ == "void"@,
                BuiltinType::Str => r@ == "string"@,
                BuiltinType::Tuple(_) => r@ == "tuple"@,
            },
    {
        match self {
            BuiltinType::Int => "int",
            BuiltinType::Bool => "bool",
            BuiltinType::Float => "float",
            BuiltinType::Void => "void",
            BuiltinType::Str => "string",
            BuiltinType::Tuple(_) => "tuple",
        }
    }

    /// The name-level key of the type.
    pub fn to_type_key(self) -> (r: TypeKey)
        ensures
            r == match self {
                BuiltinType::Int => TypeKey::Int,
                BuiltinType::Bool => TypeKey::Bool,
                BuiltinType::Float => TypeKey::Float,
                BuiltinType::Void => TypeKey::Void,
                BuiltinType::Str => TypeKey::Str,
                BuiltinType::Tuple(arity) => TypeKey::Tuple(arity),
            },
    {
        match self {
            BuiltinType::Int => TypeKey::Int,
            BuiltinType::Bool => TypeKey::Bool,
            BuiltinType::Float => TypeKey::Float,
            BuiltinType::Void => TypeKey::Void,
            BuiltinType::Str => TypeKey::Str,
            BuiltinType::Tuple(arity) => TypeKey::Tuple(arity),
        }
    }
}

} // verus!
