//! Pattern exhaustiveness and usefulness for `match` expressions over enum
//! variants: a match is exhaustive when no variant shape is left uncovered,
//! and an arm is useful when it covers a shape no earlier arm covers.

use vstd::prelude::*;

verus! {

/// The normal form of a match pattern: a wildcard (or binding), or one
/// variant of the scrutinised enum.
#[derive(Debug, Clone, Copy, PartialEq, Eq, Structural)]
pub enum DeconstructedPat {
    Wild,
    Variant(u16),
}

/// Whether one pattern covers values of the given variant tag.
pub open spec fn covers(p: DeconstructedPat, tag: u16) -> bool {
    match p {
        DeconstructedPat::Wild => true,
        DeconstructedPat::Variant(t) => t == tag,
    }
}

/// Whether some arm of the list covers the given variant tag.
pub open spec fn covered(arms: Seq<DeconstructedPat>, tag: u16) -> bool {
    exists|i: int| 0 <= i < arms.len() && covers(#[trigger] arms[i], tag)
}

/// A match over an enum of `n_variants` variants is exhaustive when every
/// tag is covered.
pub open spec fn exhaustive(n_variants: u16, arms: Seq<DeconstructedPat>) -> bool {
    forall|t: u16| t < n_variants ==> covered(arms, t)
}

fn covers_exec(p: DeconstructedPat, tag: u16) -> (r: bool)
    ensures
        r == covers(p, tag),
{
    match p {
        DeconstructedPat::Wild => true,
        DeconstructedPat::Variant(t) => t == tag,
    }
}

fn covered_exec(arms: &Vec<DeconstructedPat>, tag: u16) -> (r: bool)
    ensures
        r == covered(arms@, tag),
{
    let mut i: usize = 0;
    while i < arms.len()
        invariant
            i <= arms@.len(),
            forall|j: int| 0 <= j < i ==> !covers(#[trigger] arms@[j], tag),
        decreases arms@.len() - i,
    {
        if covers_exec(arms[i], tag) {
            return true;
        }
        i += 1;
    }
    false
}

/// The uncovered variant shapes among the tags below `t`, in tag order.
pub open spec fn missing_upto(arms: Seq<DeconstructedPat>, t: int) -> Seq<DeconstructedPat>
    decreases t,
{
    if t <= 0 {
        Seq::empty()
    } else {
        let rest = missing_upto(arms, t - 1);
        if covered(arms, (t - 1) as u16) {
            rest
        } else {
            rest.push(DeconstructedPat::Variant((t - 1) as u16))
        }
    }
}

/// Whether arm `i` is useful: it covers some tag of the enum that the arms
/// before it leave open.
pub open spec fn arm_useful(n_variants: u16, arms: Seq<DeconstructedPat>, i: int) -> bool {
    exists|t: u16| t < n_variants && covers(arms[i], t) && !covered(arms.take(i), t)
}

/// The indices of the useless arms among the first `i`, in order.
pub open spec fn redundant_upto(n_variants: u16, arms: Seq<DeconstructedPat>, i: int) -> Seq<usize>
    decreases i,
{
    if i <= 0 {
        Seq::empty()
    } else {
        let rest = redundant_upto(n_variants, arms, i - 1);
        if arm_useful(n_variants, arms, i - 1) {
            rest
        } else {
            rest.push((i - 1) as usize)
        }
    }
}

/// The uncovered variant shapes of a match, in tag order: the `missing`
/// list of a `NonexhaustiveMatch` diagnostic. Empty exactly when the match
/// is exhaustive.
pub fn uncovered_shapes(n_variants: u16, arms: &Vec<DeconstructedPat>) -> (r: Vec<
    DeconstructedPat,
>)
    ensures
        r@ == missing_upto(arms@, n_variants as int),
        forall|k: int|
            0 <= k < r@.len() ==> (#[trigger] r@[k] matches DeconstructedPat::Variant(t) && t
                < n_variants && !covered(arms@, t)),
        forall|t: u16| t < n_variants && !covered(arms@, t) ==> r@.contains(
            DeconstructedPat::Variant(t),
        ),
        (r@.len() == 0) == exhaustive(n_variants, arms@),
{
    let mut r: Vec<DeconstructedPat> = Vec::new();
    let mut t: u16 = 0;
    while t < n_variants
        invariant
            t <= n_variants,
            r@ == missing_upto(arms@, t as int),
            forall|k: int|
                0 <= k < r@.len() ==> (#[trigger] r@[k] matches DeconstructedPat::Variant(v) && v
                    < t && !covered(arms@, v)),
            forall|v: u16| v < t && !covered(arms@, v) ==> r@.contains(
                DeconstructedPat::Variant(v),
            ),
        decreases n_variants - t,
    {
        if !covered_exec(arms, t) {
            let ghost pre = r@;
            r.push(DeconstructedPat::Variant(t));
            proof {
                assert forall|v: u16|
                    v < t + 1 && !covered(arms@, v) implies r@.contains(
                    DeconstructedPat::Variant(v),
                ) by {
                    if v < t {
                        let w = choose|w: int|
                            0 <= w < pre.len() && pre[w] == DeconstructedPat::Variant(v);
                        assert(r@[w] == DeconstructedPat::Variant(v));
                    } else {
                        assert(r@[pre.len() as int] == DeconstructedPat::Variant(v));
                    }
                }
            }
        } else {
            proof {
                assert forall|v: u16|
                    v < t + 1 && !covered(arms@, v) implies r@.contains(
                    DeconstructedPat::Variant(v),
                ) by {
                    if v < t {
                        assert(r@.contains(DeconstructedPat::Variant(v)));
                    } else {
                        assert(covered(arms@, v));
                    }
                }
            }
        }
        t += 1;
    }
    if r.len() == 0 {
        assert(exhaustive(n_variants, arms@)) by {
            assert forall|v: u16| v < n_variants implies covered(arms@, v) by {
                if !covered(arms@, v) {
                    assert(r@.contains(DeconstructedPat::Variant(v)));
                }
            }
        }
    } else {
        assert(r@[0] matches DeconstructedPat::Variant(v) && !covered(arms@, v));
    }
    r
}

/// The redundant arms of a match: exactly the arms that cover no tag of
/// the enum that the arms before them leave open, in order.
pub fn redundant_arms(n_variants: u16, arms: &Vec<DeconstructedPat>) -> (r: Vec<usize>)
    ensures
        r@ == redundant_upto(n_variants, arms@, arms@.len() as int),
        forall|k: int|
            0 <= k < r@.len() ==> 0 <= #[trigger] r@[k] < arms@.len() && (forall|t: u16|
                t < n_variants && covers(arms@[r@[k] as int], t) ==> covered(
                    arms@.take(r@[k] as int),
                    t,
                )),
{
    let mut r: Vec<usize> = Vec::new();
    let mut i: usize = 0;
    while i < arms.len()
        invariant
            i <= arms@.len(),
            r@ == redundant_upto(n_variants, arms@, i as int),
            forall|k: int|
                0 <= k < r@.len() ==> 0 <= #[trigger] r@[k] < i && (forall|t: u16|
                    t < n_variants && covers(arms@[r@[k] as int], t) ==> covered(
                        arms@.take(r@[k] as int),
                        t,
                    )),
        decreases arms@.len() - i,
    {
        let mut useful = false;
        let mut t: u16 = 0;
        let ghost prefix = arms@.take(i as int);
        while t < n_variants
            invariant
                t <= n_variants,
                prefix == arms@.take(i as int),
                i < arms@.len(),
                useful ==> exists|v: u16|
                    v < n_variants && covers(arms@[i as int], v) && !covered(prefix, v),
                !useful ==> forall|v: u16|
                    v < t && covers(arms@[i as int], v) ==> covered(prefix, v),
            decreases n_variants - t,
        {
            if !useful && covers_exec(arms[i], t) && !covered_exec_prefix(arms, i, t) {
                useful = true;
            }
            t += 1;
        }
        proof {
            if useful {
                assert(arm_useful(n_variants, arms@, i as int));
            } else {
                assert(!arm_useful(n_variants, arms@, i as int)) by {
                    if arm_useful(n_variants, arms@, i as int) {
                        let t0 = choose|t0: u16|
                            t0 < n_variants && covers(arms@[i as int], t0) && !covered(
                                arms@.take(i as int),
                                t0,
                            );
                        assert(covered(prefix, t0));
                    }
                }
            }
        }
        if !useful {
            r.push(i);
        }
        i += 1;
    }
    r
}

fn covered_exec_prefix(arms: &Vec<DeconstructedPat>, upto: usize, tag: u16) -> (r: bool)
    requires
        upto <= arms@.len(),
    ensures
        r == covered(arms@.take(upto as int), tag),
{
    let mut i: usize = 0;
    while i < upto
        invariant
            i <= upto <= arms@.len(),
            forall|j: int| 0 <= j < i ==> !covers(#[trigger] arms@.take(upto as int)[j], tag),
        decreases upto - i,
    {
        if covers_exec(arms[i], tag) {
            assert(arms@.take(upto as int)[i as int] == arms@[i as int]);
            return true;
        }
        assert(arms@.take(upto as int)[i as int] == arms@[i as int]);
        i += 1;
    }
    false
}

/// Exhaustiveness is monotonic: adding an arm to an exhaustive match never
/// makes it non-exhaustive, because every tag the old arms covered is still
/// covered by the same arm.
pub proof fn lemma_exhaustive_monotonic(
    n_variants: u16,
    arms: Seq<DeconstructedPat>,
    extra: DeconstructedPat,
)
    requires
        exhaustive(n_variants, arms),
    ensures
        exhaustive(n_variants, arms.push(extra)),
{
    assert forall|t: u16| t < n_variants implies covered(arms.push(extra), t) by {
        assert(covered(arms, t));
        let i = choose|i: int| 0 <= i < arms.len() && covers(arms[i], t);
        assert(arms.push(extra)[i] == arms[i]);
    }
}

/// More generally, adding an arm never shrinks the set of covered tags.
pub proof fn lemma_covered_monotonic(arms: Seq<DeconstructedPat>, extra: DeconstructedPat, t: u16)
    requires
        covered(arms, t),
    ensures
        covered(arms.push(extra), t),
{
    let i = choose|i: int| 0 <= i < arms.len() && covers(arms[i], t);
    assert(arms.push(extra)[i] == arms[i]);
}

} // verus!
