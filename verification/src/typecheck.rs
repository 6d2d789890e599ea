//! The type representation of the analyzer: solved types, unification
//! variables carrying a disjunction of potential types with provenance, and
//! the fixed-point solver over key-level constraints.

use vstd::prelude::*;
use crate::builtin::BuiltinOperation;

verus! {

/// A user-declared nominal type or the built-in array, identified by the id
/// of its definition.
#[derive(Debug, Clone, Copy, PartialEq, Eq, Structural)]
pub enum Nominal {
    Array,
    Struct(u32),
    Enum(u32),
}

/// A name-level handle for a nominal or primitive type: the index into the
/// member-function table.
#[derive(Debug, Clone, Copy, PartialEq, Eq, Structural)]
pub enum TypeKey {
    Int,
    Bool,
    Float,
    Void,
    Str,
    Tuple(u8),
    Function,
    TyApp(Nominal),
}

/// A crystallised type: a primitive, a polytype parameter, or an array of
/// an element type.
#[derive(Debug, PartialEq, Eq)]
pub enum Ty {
    Int,
    Bool,
    Float,
    Void,
    Str,
    Never,
    Poly(u32),
    Arr(Box<Ty>),
}

impl Ty {
    /// The name-level key of this type.
    pub open spec fn spec_key(self) -> TypeKey {
        match self {
            Ty::Int => TypeKey::Int,
            Ty::Bool => TypeKey::Bool,
            Ty::Float => TypeKey::Float,
            Ty::Void => TypeKey::Void,
            Ty::Str => TypeKey::Str,
            Ty::Never => TypeKey::Void,
            Ty::Poly(_) => TypeKey::Void,
            Ty::Arr(_) => TypeKey::TyApp(Nominal::Array),
        }
    }
}

impl Clone for Ty {
    fn clone(&self) -> (r: Self)
        ensures
            r == self,
        decreases self,
    {
        match self {
            Ty::Int => Ty::Int,
            Ty::Bool => Ty::Bool,
            Ty::Float => Ty::Float,
            Ty::Void => Ty::Void,
            Ty::Str => Ty::Str,
            Ty::Never => Ty::Never,
            Ty::Poly(p) => Ty::Poly(*p),
            Ty::Arr(e) => Ty::Arr(Box::new((**e).clone())),
        }
    }
}

/// Why a constraint or a potential type exists: the blame carried through
/// to diagnostics.
#[derive(Debug, Clone, Copy, PartialEq, Eq, Structural)]
pub enum Reason {
    Builtin(BuiltinOperation),
    Node(u64),
    Annotation(u64),
}

/// The provenance key of a unification variable.
#[derive(Debug, Clone, Copy, PartialEq, Eq, Structural)]
pub enum Prov {
    Node(u64),
    FuncRet(u32),
}

/// One potential type of a unification variable: an atom or a function
/// signature.
#[derive(Debug)]
pub enum PotentialType {
    Atom(Ty),
    Func(FuncSig),
}

/// A function signature: parameter types and return type.
#[derive(Debug)]
pub struct FuncSig {
    pub params: Vec<Ty>,
    pub ret: Ty,
}

impl PotentialType {
    /// The name-level key a potential type is merged under.
    pub open spec fn spec_key(self) -> TypeKey {
        match self {
            PotentialType::Atom(t) => t.spec_key(),
            PotentialType::Func(_) => TypeKey::Function,
        }
    }

    pub fn key(&self) -> (k: TypeKey)
        ensures
            k == self.spec_key(),
    {
        match self {
            PotentialType::Atom(t) => match t {
                Ty::Int => TypeKey::Int,
                Ty::Bool => TypeKey::Bool,
                Ty::Float => TypeKey::Float,
                Ty::Void => TypeKey::Void,
                Ty::Str => TypeKey::Str,
                Ty::Never => TypeKey::Void,
                Ty::Poly(_) => TypeKey::Void,
                Ty::Arr(_) => TypeKey::TyApp(Nominal::Array),
            },
            PotentialType::Func(_) => TypeKey::Function,
        }
    }
}

/// A unification variable: the disjunction of types it may still be, and
/// the provenance of each piece of evidence seen so far.
#[derive(Debug)]
pub struct TypeVar {
    pub potentials: Vec<PotentialType>,
    pub reasons: Vec<Reason>,
}

impl TypeVar {
    /// A fresh, unconstrained variable.
    pub fn empty() -> (r: TypeVar)
        ensures
            r.potentials@.len() == 0,
    {
        TypeVar { potentials: Vec::new(), reasons: Vec::new() }
    }

    pub fn make_int(reason: Reason) -> (r: TypeVar)
        ensures
            r.potentials@.len() == 1,
            r.potentials@[0] == PotentialType::Atom(Ty::Int),
            r.reasons@ == seq![reason],
    {
        TypeVar { potentials: vec![PotentialType::Atom(Ty::Int)], reasons: vec![reason] }
    }

    pub fn make_float(reason: Reason) -> (r: TypeVar)
        ensures
            r.potentials@.len() == 1,
            r.potentials@[0] == PotentialType::Atom(Ty::Float),
            r.reasons@ == seq![reason],
    {
        TypeVar { potentials: vec![PotentialType::Atom(Ty::Float)], reasons: vec![reason] }
    }

    pub fn make_bool(reason: Reason) -> (r: TypeVar)
        ensures
            r.potentials@.len() == 1,
            r.potentials@[0] == PotentialType::Atom(Ty::Bool),
            r.reasons@ == seq![reason],
    {
        TypeVar { potentials: vec![PotentialType::Atom(Ty::Bool)], reasons: vec![reason] }
    }

    pub fn make_string(reason: Reason) -> (r: TypeVar)
        ensures
            r.potentials@.len() == 1,
            r.potentials@[0] == PotentialType::Atom(Ty::Str),
            r.reasons@ == seq![reason],
    {
        TypeVar { potentials: vec![PotentialType::Atom(Ty::Str)], reasons: vec![reason] }
    }

    pub fn make_void(reason: Reason) -> (r: TypeVar)
        ensures
            r.potentials@.len() == 1,
            r.potentials@[0] == PotentialType::Atom(Ty::Void),
            r.reasons@ == seq![reason],
    {
        TypeVar { potentials: vec![PotentialType::Atom(Ty::Void)], reasons: vec![reason] }
    }

    pub fn make_never(reason: Reason) -> (r: TypeVar)
        ensures
            r.potentials@.len() == 1,
            r.potentials@[0] == PotentialType::Atom(Ty::Never),
            r.reasons@ == seq![reason],
    {
        TypeVar { potentials: vec![PotentialType::Atom(Ty::Never)], reasons: vec![reason] }
    }

    pub fn make_func(params: Vec<Ty>, ret: Ty, reason: Reason) -> (r: TypeVar)
        ensures
            r.potentials@.len() == 1,
            r.potentials@[0] matches PotentialType::Func(sig) && sig.params@ == params@ && sig.ret
                == ret,
            r.reasons@ == seq![reason],
    {
        TypeVar { potentials: vec![PotentialType::Func(FuncSig { params, ret })], reasons: vec![
            reason,
        ] }
    }

    /// The solved form: the single potential type left, when the variable is
    /// neither unconstrained (none left) nor conflicted (several left).
    pub fn solution(&self) -> (r: Option<&PotentialType>)
        ensures
            match r {
                Some(p) => self.potentials@.len() == 1 && *p == self.potentials@[0],
                None => self.potentials@.len() != 1,
            },
    {
        if self.potentials.len() == 1 {
            Some(&self.potentials[0])
        } else {
            None
        }
    }
}

/// The keys of the potential types of a variable, in order.
pub open spec fn keys_of(pots: Seq<PotentialType>) -> Seq<TypeKey> {
    pots.map_values(|p: PotentialType| p.spec_key())
}

/// The potentials of `pots` whose key also occurs in `keys`: the merge of a
/// variable with the evidence of the other side of a constraint.
pub open spec fn restrict(pots: Seq<PotentialType>, keys: Seq<TypeKey>) -> Seq<PotentialType>
    decreases pots.len(),
{
    if pots.len() == 0 {
        Seq::empty()
    } else if keys.contains(pots[0].spec_key()) {
        seq![pots[0]] + restrict(pots.drop_first(), keys)
    } else {
        restrict(pots.drop_first(), keys)
    }
}

pub proof fn lemma_restrict_len(pots: Seq<PotentialType>, keys: Seq<TypeKey>)
    ensures
        restrict(pots, keys).len() <= pots.len(),
    decreases pots.len(),
{
    if pots.len() > 0 {
        lemma_restrict_len(pots.drop_first(), keys);
    }
}

/// A restriction that loses nothing is the identity: the evidence already
/// agreed.
pub proof fn lemma_restrict_full(pots: Seq<PotentialType>, keys: Seq<TypeKey>)
    requires
        restrict(pots, keys).len() == pots.len(),
    ensures
        restrict(pots, keys) == pots,
    decreases pots.len(),
{
    if pots.len() > 0 {
        lemma_restrict_len(pots.drop_first(), keys);
        if keys.contains(pots[0].spec_key()) {
            lemma_restrict_full(pots.drop_first(), keys);
            assert(restrict(pots, keys) =~= pots);
        }
    } else {
        assert(restrict(pots, keys) =~= pots);
    }
}

/// A constraint: the two unification variables (by index) that a reason
/// forces to agree.
#[derive(Debug, Clone, Copy, PartialEq, Eq, Structural)]
pub struct Constraint {
    pub a: usize,
    pub b: usize,
    pub reason: Reason,
}

/// Whether the two sides of a constraint have merged: each side's evidence
/// is already restricted to the keys of the other.
pub open spec fn pair_merged(vars: Seq<TypeVar>, a: int, b: int) -> bool {
    &&& restrict(vars[a].potentials@, keys_of(vars[b].potentials@)) == vars[a].potentials@
    &&& restrict(vars[b].potentials@, keys_of(vars[a].potentials@)) == vars[b].potentials@
}

pub open spec fn constraint_in_range(c: Constraint, n: int) -> bool {
    c.a < n && c.b < n
}

/// A variable table is solved when every constraint's sides have merged:
/// re-running the solver discards no further evidence.
pub open spec fn solved(vars: Seq<TypeVar>, constraints: Seq<Constraint>) -> bool {
    forall|j: int|
        0 <= j < constraints.len() && constraint_in_range(
            #[trigger] constraints[j],
            vars.len() as int,
        ) ==> pair_merged(vars, constraints[j].a as int, constraints[j].b as int)
}

/// The keys of a variable's potentials, in order.
fn collect_keys(v: &TypeVar) -> (r: Vec<TypeKey>)
    ensures
        r@ == keys_of(v.potentials@),
{
    let mut r: Vec<TypeKey> = Vec::new();
    let mut i: usize = 0;
    while i < v.potentials.len()
        invariant
            i <= v.potentials@.len(),
            r@.len() == i,
            forall|k: int| 0 <= k < i ==> r@[k] == v.potentials@[k].spec_key(),
        decreases v.potentials@.len() - i,
    {
        r.push(v.potentials[i].key());
        i += 1;
    }
    assert(r@ =~= keys_of(v.potentials@));
    r
}

/// Drops every potential whose key does not occur in `keys`, in place.
fn retain_keys(pots: &mut Vec<PotentialType>, keys: &Vec<TypeKey>)
    ensures
        final(pots)@ == restrict(old(pots)@, keys@),
        final(pots)@.len() == old(pots)@.len() ==> final(pots)@ == old(pots)@,
{
    let ghost orig = pots@;
    let mut i: usize = 0;
    proof {
        assert(pots@.skip(0) =~= pots@);
        assert(pots@.take(0int) + restrict(pots@, keys@) =~= restrict(pots@, keys@));
    }
    while i < pots.len()
        invariant
            i <= pots@.len(),
            restrict(orig, keys@) == pots@.take(i as int) + restrict(pots@.skip(i as int), keys@),
        decreases pots@.len() - i,
    {
        let k = pots[i].key();
        let mut found = false;
        let mut j: usize = 0;
        while j < keys.len()
            invariant
                j <= keys@.len(),
                found == exists|m: int| 0 <= m < j && keys@[m] == k,
            decreases keys@.len() - j,
        {
            if keys[j] == k {
                found = true;
            }
            j += 1;
        }
        assert(found == keys@.contains(k));
        let ghost pre = pots@;
        if found {
            proof {
                assert(pre.skip(i as int)[0] == pre[i as int]);
                assert(pre.skip(i as int).drop_first() =~= pre.skip(i + 1));
                assert(seq![pre[i as int]] + restrict(pre.skip(i + 1), keys@) =~= restrict(
                    pre.skip(i as int),
                    keys@,
                ));
                assert(pre.take(i as int) + (seq![pre[i as int]] + restrict(
                    pre.skip(i + 1),
                    keys@,
                )) =~= pre.take(i + 1) + restrict(pre.skip(i + 1), keys@));
            }
            i += 1;
        } else {
            pots.remove(i);
            proof {
                assert(pre.skip(i as int)[0] == pre[i as int]);
                assert(pre.skip(i as int).drop_first() =~= pre.skip(i + 1));
                assert(pots@ =~= pre.take(i as int) + pre.skip(i + 1));
                assert(pots@.take(i as int) =~= pre.take(i as int));
                assert(pots@.skip(i as int) =~= pre.skip(i + 1));
            }
        }
    }
    proof {
        assert(pots@.skip(i as int).len() == 0);
        assert(pots@.take(i as int) =~= pots@);
        assert(pots@ =~= restrict(orig, keys@));
        if pots@.len() == orig.len() {
            lemma_restrict_full(orig, keys@);
        }
    }
}

/// The two tables carry the same evidence: equal potentials and reasons,
/// variable by variable.
pub open spec fn tables_equal(v1: Seq<TypeVar>, v2: Seq<TypeVar>) -> bool {
    &&& v1.len() == v2.len()
    &&& forall|i: int|
        0 <= i < v1.len() ==> (#[trigger] v1[i]).potentials@ == v2[i].potentials@ && v1[i].reasons@
            == v2[i].reasons@
}

/// One pass over the constraints. When it discards nothing, the table is
/// solved and is returned exactly as it was.
fn merge_pass(vars: &mut Vec<TypeVar>, constraints: &Vec<Constraint>) -> (changed: bool)
    ensures
        !changed ==> tables_equal(final(vars)@, old(vars)@) && solved(final(vars)@, constraints@),
        solved(old(vars)@, constraints@) ==> !changed,
{
    let ghost orig = vars@;
    let mut changed = false;
    let mut ci: usize = 0;
    while ci < constraints.len()
        invariant
            ci <= constraints@.len(),
            !changed ==> tables_equal(vars@, orig),
            !changed ==> forall|j: int|
                0 <= j < ci && constraint_in_range(
                    #[trigger] constraints@[j],
                    vars@.len() as int,
                ) ==> pair_merged(vars@, constraints@[j].a as int, constraints@[j].b as int),
            solved(orig, constraints@) ==> !changed,
        decreases constraints@.len() - ci,
    {
        let c = constraints[ci];
        if c.a < vars.len() && c.b < vars.len() {
            let keys_b = collect_keys(&vars[c.b]);
            let ghost pre_a = vars@;
            let before_a = vars[c.a].potentials.len();
            let mut va = vars.remove(c.a);
            retain_keys(&mut va.potentials, &keys_b);
            let after_a = va.potentials.len();
            vars.insert(c.a, va);
            proof {
                assert(vars@.len() == pre_a.len());
                if after_a == before_a {
                    assert(tables_equal(vars@, pre_a)) by {
                        assert(forall|m: int|
                            0 <= m < pre_a.len() && m != c.a ==> #[trigger] vars@[m] == pre_a[m]);
                    }
                }
            }
            if after_a != before_a {
                changed = true;
            }
            let keys_a = collect_keys(&vars[c.a]);
            let ghost pre_b = vars@;
            let before_b = vars[c.b].potentials.len();
            let mut vb = vars.remove(c.b);
            retain_keys(&mut vb.potentials, &keys_a);
            let after_b = vb.potentials.len();
            vars.insert(c.b, vb);
            proof {
                assert(vars@.len() == pre_b.len());
                if after_b == before_b {
                    assert(tables_equal(vars@, pre_b)) by {
                        assert(forall|m: int|
                            0 <= m < pre_b.len() && m != c.b ==> #[trigger] vars@[m] == pre_b[m]);
                    }
                }
            }
            if after_b != before_b {
                changed = true;
            }
            proof {
                if !changed {
                    assert(tables_equal(vars@, orig));
                    assert(pair_merged(vars@, c.a as int, c.b as int)) by {
                        assert(vars@[c.a as int].potentials@ == restrict(
                            pre_a[c.a as int].potentials@,
                            keys_b@,
                        ));
                        assert(vars@[c.b as int].potentials@ == restrict(
                            pre_b[c.b as int].potentials@,
                            keys_a@,
                        ));
                        assert(keys_b@ == keys_of(vars@[c.b as int].potentials@));
                        assert(keys_a@ == keys_of(vars@[c.a as int].potentials@));
                    }
                    assert(forall|j: int|
                        0 <= j < ci + 1 && constraint_in_range(
                            #[trigger] constraints@[j],
                            vars@.len() as int,
                        ) ==> pair_merged(
                            vars@,
                            constraints@[j].a as int,
                            constraints@[j].b as int,
                        ));
                }
                if solved(orig, constraints@) {
                    assert(!changed) by {
                        assert(pair_merged(orig, c.a as int, c.b as int));
                    }
                }
            }
        }
        ci += 1;
    }
    proof {
        if !changed {
            assert(solved(vars@, constraints@));
        }
    }
    changed
}

/// Solves the table by repeated merging, to a fixed point. The result is
/// `true` when a full pass discarded nothing: the table is then solved, and
/// solving is idempotent — running this again on a solved table keeps every
/// variable exactly as it is.
pub fn solve_types(vars: &mut Vec<TypeVar>, constraints: &Vec<Constraint>) -> (complete: bool)
    ensures
        complete ==> solved(final(vars)@, constraints@),
        solved(old(vars)@, constraints@) ==> complete && tables_equal(final(vars)@, old(vars)@),
{
    let mut fuel: usize = 1;
    let mut i: usize = 0;
    while i < vars.len()
        invariant
            fuel >= 1,
            vars@ == old(vars)@,
        decreases vars@.len() - i,
    {
        let l = vars[i].potentials.len();
        if fuel <= usize::MAX - l {
            fuel += l;
        }
        i += 1;
    }
    let ghost orig = vars@;
    let mut first = true;
    while fuel > 0
        invariant
            orig == old(vars)@,
            first ==> vars@ == orig,
            first ==> fuel >= 1,
            !first ==> !solved(orig, constraints@),
        decreases fuel,
    {
        let ghost pre = vars@;
        let changed = merge_pass(vars, constraints);
        if !changed {
            proof {
                assert(orig == old(vars)@);
                if solved(old(vars)@, constraints@) {
                    assert(solved(orig, constraints@));
                    assert(first);
                    assert(pre == orig);
                    assert(tables_equal(vars@, pre));
                    assert(tables_equal(vars@, old(vars)@));
                }
            }
            return true;
        }
        proof {
            if first {
                assert(!solved(orig, constraints@));
            }
        }
        first = false;
        fuel -= 1;
    }
    false
}

} // verus!
