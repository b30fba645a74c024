//! Dependency resolution: order the merged phases so that every phase
//! comes after everything it declares a dependency on.
//!
//! The order is deterministic: of the phases whose dependencies are all
//! already placed, the first in merge order is placed next. When no phase
//! is placeable the declared graph is cyclic (or names a phase that does
//! not exist), and generation fails rather than emit a truncated plan.

use vstd::prelude::*;

use crate::chain::strs_chars;
use crate::errors::PlanError;
use crate::listops::opt_view;
use crate::plan::NewPhase;
use crate::chain::{contains_name, phase_names};

verus! {

/// The dependencies a phase declares.
pub open spec fn deps_of(p: NewPhase) -> Seq<String> {
    opt_view(p.depends_on)
}

/// Every dependency of `p` names an already placed phase.
pub open spec fn phase_ready(p: NewPhase, placed: Seq<Seq<char>>) -> bool {
    forall|j: int| 0 <= j < deps_of(p).len() ==> placed.contains(#[trigger] deps_of(p)[j]@)
}

/// The first position at or after `i` of a placeable phase, or the length
/// when none is placeable.
pub open spec fn find_ready(s: Seq<NewPhase>, placed: Seq<Seq<char>>, i: int) -> int
    decreases s.len() - i,
{
    if i < 0 || i >= s.len() {
        s.len() as int
    } else if phase_ready(s[i], placed) {
        i
    } else {
        find_ready(s, placed, i + 1)
    }
}

/// The dependency-respecting order of `s`, given the names already
/// placed; `None` when the declared graph admits none.
pub open spec fn topo_from(s: Seq<NewPhase>, placed: Seq<Seq<char>>) -> Option<Seq<NewPhase>>
    decreases s.len(),
{
    if s.len() == 0 {
        Some(Seq::<NewPhase>::empty())
    } else {
        let i = find_ready(s, placed, 0);
        if 0 <= i < s.len() {
            match topo_from(s.remove(i), placed.push(s[i].name@)) {
                Some(rest) => Some(Seq::<NewPhase>::empty().push(s[i]) + rest),
                None => None,
            }
        } else {
            None
        }
    }
}

/// The dependency-respecting order of `s`, when one exists.
pub open spec fn topo_spec(s: Seq<NewPhase>) -> Option<Seq<NewPhase>> {
    topo_from(s, Seq::<Seq<char>>::empty())
}

/// In `v`, every dependency either was placed beforehand or is the name
/// of an earlier element.
pub open spec fn ordered_from(v: Seq<NewPhase>, placed: Seq<Seq<char>>) -> bool {
    forall|i: int, j: int|
        #![trigger deps_of(v[i])[j]]
        0 <= i < v.len() && 0 <= j < deps_of(v[i]).len() ==> (placed.contains(deps_of(v[i])[j]@)
            || exists|k: int| 0 <= k < i && v[k].name@ == deps_of(v[i])[j]@)
}

/// Every dependency in `v` is the name of an earlier element of `v`.
pub open spec fn order_ok(v: Seq<NewPhase>) -> bool {
    ordered_from(v, Seq::<Seq<char>>::empty())
}

/// Element `i` of `v` is one of the elements of `s`.
pub open spec fn phase_from(v: Seq<NewPhase>, s: Seq<NewPhase>, i: int) -> bool {
    exists|j: int| 0 <= j < s.len() && v[i] == s[j]
}

/// What a found order guarantees: it is as long as the input, made of
/// elements of the input, dependency-respecting, and keeps names unique
/// when the input's names are.
pub proof fn lemma_topo_props(s: Seq<NewPhase>, placed: Seq<Seq<char>>)
    ensures
        topo_from(s, placed) matches Some(v) ==> {
            &&& v.len() == s.len()
            &&& (forall|i: int| 0 <= i < v.len() ==> #[trigger] phase_from(v, s, i))
            &&& ordered_from(v, placed)
            &&& (phase_names(s).no_duplicates() ==> phase_names(v).no_duplicates())
        },
    decreases s.len(),
{
    if s.len() == 0 {
    } else {
        let i = find_ready(s, placed, 0);
        if i < s.len() {
            lemma_find_ready_props(s, placed, 0);
            let s2 = s.remove(i);
            let placed2 = placed.push(s[i].name@);
            lemma_topo_props(s2, placed2);
            if topo_from(s2, placed2) is Some {
                let rest = topo_from(s2, placed2)->Some_0;
                let v = Seq::<NewPhase>::empty().push(s[i]) + rest;
                // Elements of the remainder are elements of the input.
                assert forall|a: int| 0 <= a < v.len() implies #[trigger] phase_from(
                    v,
                    s,
                    a,
                ) by {
                    if a == 0 {
                        assert(v[0] == s[i]);
                    } else {
                        assert(v[a] == rest[a - 1]);
                        assert(phase_from(rest, s2, a - 1));
                        let j = choose|j: int| 0 <= j < s2.len() && rest[a - 1] == s2[j];
                        if j < i {
                            assert(s2[j] == s[j]);
                        } else {
                            assert(s2[j] == s[j + 1]);
                        }
                    }
                }
                // The order respects dependencies.
                assert forall|a: int, b: int|
                    0 <= a < v.len() && 0 <= b < deps_of(v[a]).len() implies (placed.contains(
                    deps_of(v[a])[b]@,
                ) || exists|k: int| 0 <= k < a && v[k].name@ == deps_of(v[a])[b]@) by {
                    if a == 0 {
                        assert(v[0] == s[i]);
                        assert(phase_ready(s[i], placed));
                        assert(placed.contains(deps_of(v[0])[b]@));
                    } else {
                        assert(v[a] == rest[a - 1]);
                        assert(ordered_from(rest, placed2));
                        if placed2.contains(deps_of(rest[a - 1])[b]@) {
                            let d = deps_of(rest[a - 1])[b]@;
                            if placed.contains(d) {
                            } else {
                                // The pushed name is the name of v[0].
                                assert(exists|m: int|
                                    0 <= m < placed2.len() && placed2[m] == d);
                                let m = choose|m: int|
                                    0 <= m < placed2.len() && placed2[m] == d;
                                if m < placed.len() {
                                    assert(placed[m] == d);
                                } else {
                                    assert(placed2[m] == s[i].name@);
                                    assert(v[0].name@ == d);
                                }
                            }
                        } else {
                            let k = choose|k: int|
                                0 <= k < a - 1 && rest[k].name@ == deps_of(rest[a - 1])[b]@;
                            assert(v[k + 1] == rest[k]);
                        }
                    }
                }
                // Unique names carry over.
                if phase_names(s).no_duplicates() {
                    assert forall|a: int, b: int|
                        0 <= a < s2.len() && 0 <= b < s2.len() && a != b implies phase_names(
                        s2,
                    )[a] != phase_names(s2)[b] by {
                        let oa: int = if a < i { a } else { a + 1 };
                        let ob: int = if b < i { b } else { b + 1 };
                        assert(s2[a] == s[oa]);
                        assert(s2[b] == s[ob]);
                        assert(phase_names(s)[oa] != phase_names(s)[ob]);
                    }
                    assert(phase_names(s2).no_duplicates());
                    assert(phase_names(rest).no_duplicates());
                    // No element of the remainder carries the placed name.
                    assert forall|a: int| 0 <= a < rest.len() implies rest[a].name@
                        != s[i].name@ by {
                        assert(phase_from(rest, s2, a));
                        let j = choose|j: int| 0 <= j < s2.len() && rest[a] == s2[j];
                        let oj: int = if j < i { j } else { j + 1 };
                        assert(s2[j] == s[oj]);
                        assert(phase_names(s)[oj] != phase_names(s)[i]);
                    }
                    assert forall|a: int, b: int|
                        0 <= a < v.len() && 0 <= b < v.len() && a != b implies phase_names(
                        v,
                    )[a] != phase_names(v)[b] by {
                        if a == 0 {
                            assert(v[b] == rest[b - 1]);
                        } else if b == 0 {
                            assert(v[a] == rest[a - 1]);
                        } else {
                            assert(v[a] == rest[a - 1]);
                            assert(v[b] == rest[b - 1]);
                            assert(phase_names(rest)[a - 1] != phase_names(rest)[b - 1]);
                        }
                    }
                    assert(phase_names(v).no_duplicates());
                }
            }
        }
    }
}

/// Cycle rejection: two phases that each name the other as a dependency
/// admit no order at all, whatever else they carry.
pub proof fn lemma_cycle_rejected(a: NewPhase, b: NewPhase)
    requires
        exists|i: int| 0 <= i < deps_of(a).len() && (#[trigger] deps_of(a)[i])@ == b.name@,
        exists|i: int| 0 <= i < deps_of(b).len() && (#[trigger] deps_of(b)[i])@ == a.name@,
    ensures
        topo_spec(seq![a, b]) is None,
{
    let s = seq![a, b];
    let none: Seq<Seq<char>> = Seq::<Seq<char>>::empty();
    assert(!phase_ready(s[0], none)) by {
        let i = choose|i: int| 0 <= i < deps_of(a).len() && (#[trigger] deps_of(a)[i])@ == b.name@;
        assert(!none.contains(deps_of(s[0])[i]@));
    }
    assert(!phase_ready(s[1], none)) by {
        let i = choose|i: int| 0 <= i < deps_of(b).len() && (#[trigger] deps_of(b)[i])@ == a.name@;
        assert(!none.contains(deps_of(s[1])[i]@));
    }
    assert(find_ready(s, none, 2) == 2);
    assert(find_ready(s, none, 1) == 2);
    assert(find_ready(s, none, 0) == 2);
}

/// `find_ready` returns either the first placeable position or the length,
/// and the length only when nothing at or after `i` is placeable.
pub proof fn lemma_find_ready_props(s: Seq<NewPhase>, placed: Seq<Seq<char>>, i: int)
    requires
        0 <= i <= s.len(),
    ensures
        i <= find_ready(s, placed, i) <= s.len(),
        find_ready(s, placed, i) < s.len() ==> phase_ready(
            s[find_ready(s, placed, i)],
            placed,
        ),
        find_ready(s, placed, i) == s.len() ==> forall|j: int|
            i <= j < s.len() ==> !phase_ready(#[trigger] s[j], placed),
    decreases s.len() - i,
{
    if i < s.len() && !phase_ready(s[i], placed) {
        lemma_find_ready_props(s, placed, i + 1);
    }
}

/// Every dependency in `s` either is already placed or names a phase of
/// `s` that itself has no dependencies.
pub open spec fn resolvable(s: Seq<NewPhase>, placed: Seq<Seq<char>>) -> bool {
    forall|i: int, d: int|
        #![trigger deps_of(s[i])[d]]
        0 <= i < s.len() && 0 <= d < deps_of(s[i]).len() ==> (placed.contains(
            deps_of(s[i])[d]@,
        ) || exists|j: int|
            0 <= j < s.len() && s[j].name@ == deps_of(s[i])[d]@ && deps_of(s[j]).len() == 0)
}

/// A resolvable phase set admits an order: whenever every dependency is
/// placed or names a dependency-free phase, resolution succeeds.
pub proof fn lemma_topo_exists(s: Seq<NewPhase>, placed: Seq<Seq<char>>)
    requires
        resolvable(s, placed),
    ensures
        topo_from(s, placed) is Some,
    decreases s.len(),
{
    if s.len() > 0 {
        let i0 = find_ready(s, placed, 0);
        lemma_find_ready_props(s, placed, 0);
        if i0 >= s.len() {
            // Nothing is placeable; yet some phase must be, since every
            // unsatisfied dependency names a dependency-free phase.
            assert(!phase_ready(s[0], placed));
            let d = choose|d: int|
                0 <= d < deps_of(s[0]).len() && !placed.contains(deps_of(s[0])[d]@);
            let j = choose|j: int|
                0 <= j < s.len() && s[j].name@ == deps_of(s[0])[d]@ && deps_of(s[j]).len()
                    == 0;
            assert(phase_ready(s[j], placed));
            assert(false);
        } else {
            let s2 = s.remove(i0);
            let placed2 = placed.push(s[i0].name@);
            assert forall|i: int, d: int|
                #![trigger deps_of(s2[i])[d]]
                0 <= i < s2.len() && 0 <= d < deps_of(s2[i]).len() implies (placed2.contains(
                deps_of(s2[i])[d]@,
            ) || exists|j: int|
                0 <= j < s2.len() && s2[j].name@ == deps_of(s2[i])[d]@ && deps_of(
                    s2[j],
                ).len() == 0) by {
                let oi: int = if i < i0 {
                    i
                } else {
                    i + 1
                };
                assert(s2[i] == s[oi]);
                let dep = deps_of(s[oi])[d]@;
                if placed.contains(dep) {
                    assert(placed2.contains(dep)) by {
                        let m = choose|m: int| 0 <= m < placed.len() && placed[m] == dep;
                        assert(placed2[m] == dep);
                    }
                } else {
                    let j = choose|j: int|
                        0 <= j < s.len() && s[j].name@ == dep && deps_of(s[j]).len() == 0;
                    if j == i0 {
                        assert(placed2[placed.len() as int] == dep);
                        assert(placed2.contains(dep));
                    } else {
                        let nj: int = if j < i0 {
                            j
                        } else {
                            j - 1
                        };
                        assert(s2[nj] == s[j]);
                    }
                }
            }
            lemma_topo_exists(s2, placed2);
        }
    }
}

/// Are all of this phase's declared dependencies among `placed`?
fn phase_ready_exec(p: &NewPhase, placed: &Vec<String>) -> (r: bool)
    ensures
        r == phase_ready(*p, strs_chars(placed@)),
{
    match &p.depends_on {
        None => {
            assert(deps_of(*p).len() == 0);
            true
        },
        Some(deps) => {
            let n = deps.len();
            let mut j: usize = 0;
            while j < n
                invariant
                    n == deps@.len(),
                    deps@ == deps_of(*p),
                    j <= n,
                    forall|m: int|
                        0 <= m < j ==> strs_chars(placed@).contains(
                            #[trigger] deps_of(*p)[m]@,
                        ),
                decreases n - j,
            {
                if !contains_name(placed, &deps[j]) {
                    return false;
                }
                j += 1;
            }
            true
        },
    }
}

/// The first placeable position, or the length when none is.
fn find_ready_exec(s: &Vec<NewPhase>, placed: &Vec<String>) -> (r: usize)
    ensures
        r as int == find_ready(s@, strs_chars(placed@), 0),
{
    let n = s.len();
    let mut i: usize = 0;
    while i < n
        invariant
            n == s@.len(),
            i <= n,
            find_ready(s@, strs_chars(placed@), 0) == find_ready(
                s@,
                strs_chars(placed@),
                i as int,
            ),
        decreases n - i,
    {
        if phase_ready_exec(&s[i], placed) {
            return i;
        }
        i += 1;
    }
    n
}

/// Order the phases so that dependencies come first; fail on a cyclic or
/// unresolvable graph, emitting no partial order.
pub fn resolve_phase_order(phases: Vec<NewPhase>) -> (r: Result<Vec<NewPhase>, PlanError>)
    ensures
        match r {
            Ok(v) => topo_spec(phases@) == Some(v@),
            Err(e) => topo_spec(phases@) is None && e matches PlanError::PlanGraph,
        },
{
    let mut remaining = phases;
    let mut placed: Vec<String> = Vec::new();
    let mut out: Vec<NewPhase> = Vec::new();
    proof {
        assert(strs_chars(placed@) =~= Seq::<Seq<char>>::empty());
        assert(out@ + topo_spec(remaining@).unwrap_or(Seq::<NewPhase>::empty()) =~= topo_spec(
            remaining@,
        ).unwrap_or(Seq::<NewPhase>::empty()));
    }
    while remaining.len() > 0
        invariant
            topo_spec(phases@) == (match topo_from(remaining@, strs_chars(placed@)) {
                Some(rest) => Some(out@ + rest),
                None => None::<Seq<NewPhase>>,
            }),
        decreases remaining@.len(),
    {
        let idx = find_ready_exec(&remaining, &placed);
        if idx >= remaining.len() {
            return Err(PlanError::PlanGraph);
        }
        let ghost pre_remaining: Seq<NewPhase> = remaining@;
        let ghost pre_placed: Seq<Seq<char>> = strs_chars(placed@);
        let ghost pre_out: Seq<NewPhase> = out@;
        let p = remaining.remove(idx);
        placed.push(p.name.clone());
        out.push(p);
        proof {
            assert(strs_chars(placed@) =~= pre_placed.push(pre_remaining[idx as int].name@));
            assert(remaining@ == pre_remaining.remove(idx as int));
            match topo_from(remaining@, strs_chars(placed@)) {
                Some(rest) => {
                    assert(out@ + rest =~= pre_out + (Seq::<NewPhase>::empty().push(
                        pre_remaining[idx as int],
                    ) + rest));
                },
                None => {},
            }
        }
    }
    proof {
        assert(remaining@.len() == 0);
        assert(out@ + Seq::<NewPhase>::empty() =~= out@);
    }
    Ok(out)
}

} // verus!
