//! The merge pipeline: priority-ordered combination of every matching
//! provider's contributions into exactly one phase per name.
//!
//! Contributions arrive as a flat list of named phases, earlier providers
//! first. Per field: command and path-like lists concatenate in that
//! order; package sets take the union de-duplicated by name, the later
//! version winning; scalars take the last value supplied.

use vstd::prelude::*;
use vstd::pervasive::VecAdditionalExecFns;

use crate::listops::{clone_strings, extend_opt, opt_model, opt_view};
use crate::pkg::Pkg;
use crate::plan::NewPhase;
use crate::strutil::string_eq;

verus! {

/// The character sequences of a list of strings.
pub open spec fn strs_chars(s: Seq<String>) -> Seq<Seq<char>> {
    s.map_values(|x: String| x@)
}

/// The names of a list of phases, in order.
pub open spec fn phase_names(s: Seq<NewPhase>) -> Seq<Seq<char>> {
    s.map_values(|p: NewPhase| p.name@)
}

/// The distinct phase names of `s` appended to `acc`, in order of first
/// occurrence.
pub open spec fn distinct_names_from(acc: Seq<Seq<char>>, s: Seq<NewPhase>) -> Seq<Seq<char>>
    decreases s.len(),
{
    if s.len() == 0 {
        acc
    } else {
        let acc2 = if acc.contains(s.first().name@) {
            acc
        } else {
            acc.push(s.first().name@)
        };
        distinct_names_from(acc2, s.drop_first())
    }
}

/// The distinct phase names of `s`, in order of first occurrence.
pub open spec fn distinct_names(s: Seq<NewPhase>) -> Seq<Seq<char>> {
    distinct_names_from(Seq::empty(), s)
}

/// The sequence an optional sequence denotes: empty when unset.
pub open spec fn opt_or<T>(a: Option<Seq<T>>) -> Seq<T> {
    match a {
        Some(x) => x,
        None => Seq::<T>::empty(),
    }
}

/// One merge step of an additive list field: an unset contribution leaves
/// the accumulator alone; a set one appends.
pub open spec fn step_list<T>(acc: Option<Seq<T>>, c: Option<Vec<T>>) -> Option<Seq<T>> {
    match c {
        Some(v) => Some(opt_or(acc) + v@),
        None => acc,
    }
}

/// The merged value of one additive list field of the phase named `n`:
/// the contributions concatenated in priority order, unset only when no
/// contributor set the field.
pub open spec fn fold_list_field<T>(
    s: Seq<NewPhase>,
    n: Seq<char>,
    f: spec_fn(NewPhase) -> Option<Vec<T>>,
) -> Option<Seq<T>>
    decreases s.len(),
{
    if s.len() == 0 {
        None
    } else {
        let prev = fold_list_field(s.drop_last(), n, f);
        if s.last().name@ == n {
            step_list(prev, f(s.last()))
        } else {
            prev
        }
    }
}

/// The merged value of one scalar field: the last value a contributor to
/// the phase named `n` supplied.
pub open spec fn fold_scalar_field(
    s: Seq<NewPhase>,
    n: Seq<char>,
    f: spec_fn(NewPhase) -> Option<String>,
) -> Option<String>
    decreases s.len(),
{
    if s.len() == 0 {
        None
    } else {
        let prev = fold_scalar_field(s.drop_last(), n, f);
        if s.last().name@ == n {
            match f(s.last()) {
                Some(v) => Some(v),
                None => prev,
            }
        } else {
            prev
        }
    }
}

/// The names of a list of package references, in order.
pub open spec fn pkg_names(s: Seq<Pkg>) -> Seq<Seq<char>> {
    s.map_values(|p: Pkg| p.name@)
}

/// The first position at or after `i` holding a package named `n`, or the
/// length when there is none.
pub open spec fn first_pkg_index(s: Seq<Pkg>, n: Seq<char>, i: int) -> int
    decreases s.len() - i,
{
    if i < 0 || i >= s.len() {
        s.len() as int
    } else if s[i].name@ == n {
        i
    } else {
        first_pkg_index(s, n, i + 1)
    }
}

/// Add one package to a de-duplicated set: a package of the same name is
/// replaced in place (the later contribution wins), a new name is appended.
pub open spec fn upsert_pkg(acc: Seq<Pkg>, p: Pkg) -> Seq<Pkg> {
    let i = first_pkg_index(acc, p.name@, 0);
    if i < acc.len() {
        acc.update(i, p)
    } else {
        acc.push(p)
    }
}

/// Add a whole contribution to a de-duplicated package set, left to right.
pub open spec fn dedup_into(acc: Seq<Pkg>, s: Seq<Pkg>) -> Seq<Pkg>
    decreases s.len(),
{
    if s.len() == 0 {
        acc
    } else {
        dedup_into(upsert_pkg(acc, s.first()), s.drop_first())
    }
}

/// One merge step of the package set field.
pub open spec fn step_pkgs(acc: Option<Seq<Pkg>>, c: Option<Vec<Pkg>>) -> Option<Seq<Pkg>> {
    match c {
        Some(v) => Some(dedup_into(opt_or(acc), v@)),
        None => acc,
    }
}

/// The merged package set of the phase named `n`: the union of the
/// contributions in priority order, de-duplicated by name.
pub open spec fn fold_pkgs_field(s: Seq<NewPhase>, n: Seq<char>) -> Option<Seq<Pkg>>
    decreases s.len(),
{
    if s.len() == 0 {
        None
    } else {
        let prev = fold_pkgs_field(s.drop_last(), n);
        if s.last().name@ == n {
            step_pkgs(prev, s.last().nix_pkgs)
        } else {
            prev
        }
    }
}

/// The merged package set of a whole contribution list.
pub open spec fn dedup_pkgs(s: Seq<Pkg>) -> Seq<Pkg> {
    dedup_into(Seq::<Pkg>::empty(), s)
}

/// Merge respects priority order: when an earlier contribution brings the
/// commands `x` and a later one the commands `y` to one phase, the merged
/// command list is `x` then `y`, never the reverse.
pub proof fn lemma_merge_priority(a: NewPhase, b: NewPhase, n: Seq<char>)
    requires
        a.name@ == n,
        b.name@ == n,
    ensures
        opt_or(fold_list_field(seq![a, b], n, |q: NewPhase| q.cmds)) == opt_view(a.cmds)
            + opt_view(b.cmds),
{
    let s = seq![a, b];
    assert(s.drop_last() =~= seq![a]);
    assert(seq![a].drop_last() =~= Seq::<NewPhase>::empty());
    assert(s.last() == b);
    assert(seq![a].last() == a);
    assert(fold_list_field(seq![a], n, |q: NewPhase| q.cmds) == step_list(
        fold_list_field(Seq::<NewPhase>::empty(), n, |q: NewPhase| q.cmds),
        a.cmds,
    ));
    assert(fold_list_field(s, n, |q: NewPhase| q.cmds) == step_list(
        fold_list_field(seq![a], n, |q: NewPhase| q.cmds),
        b.cmds,
    ));
    assert(fold_list_field(Seq::<NewPhase>::empty(), n, |q: NewPhase| q.cmds) is None);
    assert(opt_or(fold_list_field(s, n, |q: NewPhase| q.cmds)) =~= opt_view(a.cmds) + opt_view(
        b.cmds,
    ));
}

/// Where `first_pkg_index` points and what stands before it.
proof fn lemma_first_pkg_index_props(s: Seq<Pkg>, n: Seq<char>, i: int)
    requires
        0 <= i <= s.len(),
    ensures
        i <= first_pkg_index(s, n, i) <= s.len(),
        first_pkg_index(s, n, i) < s.len() ==> s[first_pkg_index(s, n, i)].name@ == n,
        forall|j: int| i <= j < first_pkg_index(s, n, i) ==> s[j].name@ != n,
    decreases s.len() - i,
{
    if i < s.len() && s[i].name@ != n {
        lemma_first_pkg_index_props(s, n, i + 1);
    }
}

/// Adding one package keeps names unique, and adds exactly its name.
proof fn lemma_upsert_pkg_props(acc: Seq<Pkg>, p: Pkg)
    ensures
        pkg_names(acc).no_duplicates() ==> pkg_names(upsert_pkg(acc, p)).no_duplicates(),
        forall|m: Seq<char>|
            pkg_names(upsert_pkg(acc, p)).contains(m) <==> (pkg_names(acc).contains(m) || m
                == p.name@),
{
    lemma_first_pkg_index_props(acc, p.name@, 0);
    let i = first_pkg_index(acc, p.name@, 0);
    let r = upsert_pkg(acc, p);
    if i < acc.len() {
        assert(pkg_names(r) =~= pkg_names(acc));
        assert forall|m: Seq<char>|
            pkg_names(r).contains(m) <==> (pkg_names(acc).contains(m) || m == p.name@) by {
            assert(pkg_names(acc)[i] == p.name@);
        }
    } else {
        assert(pkg_names(r) =~= pkg_names(acc).push(p.name@));
        assert forall|m: Seq<char>|
            pkg_names(r).contains(m) <==> (pkg_names(acc).contains(m) || m == p.name@) by {
            if pkg_names(r).contains(m) {
                let w = choose|w: int| 0 <= w < pkg_names(r).len() && pkg_names(r)[w] == m;
                if w < acc.len() {
                    assert(pkg_names(acc)[w] == m);
                }
            }
            if pkg_names(acc).contains(m) {
                let w = choose|w: int|
                    0 <= w < pkg_names(acc).len() && pkg_names(acc)[w] == m;
                assert(pkg_names(r)[w] == m);
            }
            if m == p.name@ {
                assert(pkg_names(r)[acc.len() as int] == m);
            }
        }
        if pkg_names(acc).no_duplicates() {
            assert forall|x: int, y: int|
                0 <= x < pkg_names(r).len() && 0 <= y < pkg_names(r).len() && x != y implies
                pkg_names(r)[x] != pkg_names(r)[y] by {
                if x < acc.len() && y < acc.len() {
                } else if x == acc.len() {
                    assert(pkg_names(r)[y] == pkg_names(acc)[y]);
                    assert(acc[y].name@ != p.name@);
                } else if y == acc.len() {
                    assert(pkg_names(r)[x] == pkg_names(acc)[x]);
                    assert(acc[x].name@ != p.name@);
                }
            }
        }
    }
}

/// De-duplication over a whole contribution: unique names, and exactly
/// the names of the accumulator and the contribution.
proof fn lemma_dedup_into_props(acc: Seq<Pkg>, s: Seq<Pkg>)
    requires
        pkg_names(acc).no_duplicates(),
    ensures
        pkg_names(dedup_into(acc, s)).no_duplicates(),
        forall|m: Seq<char>|
            pkg_names(dedup_into(acc, s)).contains(m) <==> (pkg_names(acc).contains(m)
                || pkg_names(s).contains(m)),
    decreases s.len(),
{
    if s.len() == 0 {
        assert forall|m: Seq<char>|
            pkg_names(dedup_into(acc, s)).contains(m) <==> (pkg_names(acc).contains(m)
                || pkg_names(s).contains(m)) by {
            if pkg_names(s).contains(m) {
                let w = choose|w: int| 0 <= w < pkg_names(s).len() && pkg_names(s)[w] == m;
            }
        }
    } else {
        let p = s.first();
        lemma_upsert_pkg_props(acc, p);
        lemma_dedup_into_props(upsert_pkg(acc, p), s.drop_first());
        assert(pkg_names(s.drop_first()) =~= pkg_names(s).drop_first());
        assert forall|m: Seq<char>|
            pkg_names(dedup_into(acc, s)).contains(m) <==> (pkg_names(acc).contains(m)
                || pkg_names(s).contains(m)) by {
            assert(dedup_into(acc, s) == dedup_into(upsert_pkg(acc, p), s.drop_first()));
            if pkg_names(dedup_into(acc, s)).contains(m) {
                assert(pkg_names(upsert_pkg(acc, p)).contains(m) || pkg_names(
                    s.drop_first(),
                ).contains(m));
                if pkg_names(upsert_pkg(acc, p)).contains(m) {
                    assert(pkg_names(acc).contains(m) || m == p.name@);
                    if m == p.name@ {
                        assert(pkg_names(s)[0] == m);
                    }
                } else {
                    let w = choose|w: int|
                        0 <= w < pkg_names(s.drop_first()).len() && pkg_names(
                            s.drop_first(),
                        )[w] == m;
                    assert(pkg_names(s)[w + 1] == m);
                }
            }
            if pkg_names(acc).contains(m) {
                assert(pkg_names(upsert_pkg(acc, p)).contains(m));
                assert(pkg_names(dedup_into(upsert_pkg(acc, p), s.drop_first())).contains(m));
            }
            if pkg_names(s).contains(m) {
                let w = choose|w: int| 0 <= w < pkg_names(s).len() && pkg_names(s)[w] == m;
                if w == 0 {
                    assert(m == p.name@);
                    assert(pkg_names(upsert_pkg(acc, p)).contains(m));
                } else {
                    assert(pkg_names(s.drop_first())[w - 1] == m);
                    assert(pkg_names(s.drop_first()).contains(m));
                }
                assert(pkg_names(dedup_into(upsert_pkg(acc, p), s.drop_first())).contains(m));
            }
        }
    }
}

/// Package de-duplication: however many contributions carry one package
/// name, the merged set holds that name exactly once — every contributed
/// name is present, and no name twice.
pub proof fn lemma_pkg_dedup(s: Seq<Pkg>)
    ensures
        pkg_names(dedup_pkgs(s)).no_duplicates(),
        forall|m: Seq<char>|
            pkg_names(dedup_pkgs(s)).contains(m) <==> pkg_names(s).contains(m),
{
    lemma_dedup_into_props(Seq::<Pkg>::empty(), s);
}

/// The package set of every merged phase holds each name at most once.
pub proof fn lemma_fold_pkgs_unique(s: Seq<NewPhase>, n: Seq<char>)
    ensures
        pkg_names(opt_or(fold_pkgs_field(s, n))).no_duplicates(),
    decreases s.len(),
{
    if s.len() == 0 {
    } else {
        lemma_fold_pkgs_unique(s.drop_last(), n);
        if s.last().name@ == n {
            match s.last().nix_pkgs {
                Some(v) => {
                    lemma_dedup_into_props(opt_or(fold_pkgs_field(s.drop_last(), n)), v@);
                },
                None => {},
            }
        }
    }
}

/// The merged dependency list of the phase named `n`.
pub open spec fn merged_deps(s: Seq<NewPhase>, n: Seq<char>) -> Option<Seq<String>> {
    fold_list_field(s, n, |q: NewPhase| q.depends_on)
}

/// How the dependency field merges when every contribution is canonical:
/// elements stay `setup`, and a phase named `setup` keeps no dependencies.
pub proof fn lemma_fold_deps_props(s: Seq<NewPhase>, n: Seq<char>)
    requires
        forall|j: int, d: int|
            0 <= j < s.len() && 0 <= d < opt_view(s[j].depends_on).len() ==> (#[trigger] opt_view(
                s[j].depends_on,
            )[d])@ == "setup"@,
        forall|j: int|
            0 <= j < s.len() && (#[trigger] s[j].name)@ == "setup"@ ==> s[j].depends_on
                is None,
    ensures
        forall|d: int|
            0 <= d < opt_or(merged_deps(s, n)).len() ==> (#[trigger] opt_or(
                merged_deps(s, n),
            )[d])@ == "setup"@,
        n == "setup"@ ==> merged_deps(s, n) is None,
    decreases s.len(),
{
    if s.len() > 0 {
        let s0 = s.drop_last();
        assert forall|j: int, d: int|
            0 <= j < s0.len() && 0 <= d < opt_view(s0[j].depends_on).len() implies (
        #[trigger] opt_view(s0[j].depends_on)[d])@ == "setup"@ by {
            assert(s0[j] == s[j]);
            assert(opt_view(s[j].depends_on)[d]@ == "setup"@);
        }
        assert forall|j: int|
            0 <= j < s0.len() && (#[trigger] s0[j].name)@ == "setup"@ implies s0[j].depends_on
            is None by {
            assert(s0[j] == s[j]);
        }
        lemma_fold_deps_props(s0, n);
        let prev = merged_deps(s0, n);
        if s.last().name@ == n {
            if n == "setup"@ {
                assert(s.last() == s[s.len() - 1]);
                assert(s.last().depends_on is None);
            } else {
                match s.last().depends_on {
                    Some(v) => {
                        assert forall|d: int|
                            0 <= d < opt_or(merged_deps(s, n)).len() implies (#[trigger] opt_or(
                            merged_deps(s, n),
                        )[d])@ == "setup"@ by {
                            if d < opt_or(prev).len() {
                                assert(opt_or(merged_deps(s, n))[d] == opt_or(prev)[d]);
                            } else {
                                assert(opt_or(merged_deps(s, n))[d] == v@[d - opt_or(
                                    prev,
                                ).len()]);
                                assert(opt_view(s[s.len() - 1].depends_on)[d - opt_or(
                                    prev,
                                ).len()]@ == "setup"@);
                            }
                        }
                    },
                    None => {},
                }
            }
        }
    }
}

/// A name stands among the merged distinct names exactly when a phase of
/// the contribution list carries it (or it was already accumulated).
pub proof fn lemma_distinct_contains(acc: Seq<Seq<char>>, s: Seq<NewPhase>, n: Seq<char>)
    ensures
        distinct_names_from(acc, s).contains(n) <==> (acc.contains(n) || exists|j: int|
            0 <= j < s.len() && (#[trigger] s[j].name)@ == n),
    decreases s.len(),
{
    if s.len() > 0 {
        let first_name = s.first().name@;
        let acc2 = if acc.contains(first_name) {
            acc
        } else {
            acc.push(first_name)
        };
        lemma_distinct_contains(acc2, s.drop_first(), n);
        if acc.contains(n) {
            let m = choose|m: int| 0 <= m < acc.len() && acc[m] == n;
            assert(acc2[m] == n);
            assert(acc2.contains(n));
        }
        if acc2.contains(n) && !acc.contains(n) {
            assert(n == first_name);
            assert(s[0].name@ == n);
        }
        if exists|j: int| 0 <= j < s.len() && (#[trigger] s[j].name)@ == n {
            let j = choose|j: int| 0 <= j < s.len() && (#[trigger] s[j].name)@ == n;
            if j == 0 {
                if !acc.contains(first_name) {
                    assert(acc2[acc.len() as int] == n);
                    assert(acc2.contains(n));
                } else {
                    assert(acc2.contains(n));
                }
            } else {
                assert(s.drop_first()[j - 1] == s[j]);
            }
        }
        if exists|j: int|
            0 <= j < s.drop_first().len() && (#[trigger] s.drop_first()[j].name)@ == n {
            let j = choose|j: int|
                0 <= j < s.drop_first().len() && (#[trigger] s.drop_first()[j].name)@ == n;
            assert(s[j + 1].name@ == n);
        }
    }
}

/// The merged name list never repeats a name.
proof fn lemma_distinct_names_from_unique(acc: Seq<Seq<char>>, s: Seq<NewPhase>)
    requires
        acc.no_duplicates(),
    ensures
        distinct_names_from(acc, s).no_duplicates(),
    decreases s.len(),
{
    if s.len() > 0 {
        let nm = s.first().name@;
        if acc.contains(nm) {
            lemma_distinct_names_from_unique(acc, s.drop_first());
        } else {
            let acc2 = acc.push(nm);
            assert forall|i: int, j: int|
                0 <= i < acc2.len() && 0 <= j < acc2.len() && i != j implies acc2[i]
                != acc2[j] by {
                if i < acc.len() && j < acc.len() {
                } else if i == acc.len() {
                    assert(acc2[j] == acc[j]);
                } else {
                    assert(acc2[i] == acc[i]);
                }
            }
            lemma_distinct_names_from_unique(acc2, s.drop_first());
        }
    }
}

/// One phase per name: the merged phase list never repeats a name.
pub proof fn lemma_distinct_names_unique(s: Seq<NewPhase>)
    ensures
        distinct_names(s).no_duplicates(),
{
    lemma_distinct_names_from_unique(Seq::<Seq<char>>::empty(), s);
}

/// Is one of the strings in `names` exactly `n`?
pub(crate) fn contains_name(names: &Vec<String>, n: &String) -> (r: bool)
    ensures
        r == strs_chars(names@).contains(n@),
{
    let len = names.len();
    let mut i: usize = 0;
    while i < len
        invariant
            len == names@.len(),
            i <= len,
            forall|j: int| 0 <= j < i ==> names@[j]@ != n@,
        decreases len - i,
    {
        if string_eq(&names[i], n) {
            proof {
                assert(strs_chars(names@)[i as int] == n@);
            }
            return true;
        }
        i += 1;
    }
    proof {
        assert forall|j: int| 0 <= j < strs_chars(names@).len() implies strs_chars(names@)[j]
            != n@ by {
            assert(strs_chars(names@)[j] == names@[j]@);
        }
    }
    false
}

/// Add one package to a de-duplicated set in place.
fn upsert_pkg_exec(acc: &mut Vec<Pkg>, p: Pkg)
    ensures
        final(acc)@ == upsert_pkg(old(acc)@, p),
{
    let len = acc.len();
    let mut i: usize = 0;
    while i < len
        invariant
            len == acc@.len(),
            i <= len,
            *acc == *old(acc),
            first_pkg_index(acc@, p.name@, 0) == first_pkg_index(acc@, p.name@, i as int),
        decreases len - i,
    {
        if string_eq(&acc[i].name, &p.name) {
            assert(first_pkg_index(acc@, p.name@, i as int) == i);
            acc.set(i, p);
            return;
        }
        i += 1;
    }
    assert(first_pkg_index(acc@, p.name@, len as int) == acc@.len());
    acc.push(p);
}

/// Merge one contribution's package list into the accumulated field.
fn merge_pkgs_step(accf: &mut Option<Vec<Pkg>>, incoming: &Vec<Pkg>)
    ensures
        opt_model(*final(accf)) == step_pkgs(opt_model(*old(accf)), Some(*incoming)),
{
    let mut cur: Vec<Pkg> = match accf.take() {
        Some(x) => x,
        None => Vec::new(),
    };
    proof {
        assert(cur@ == opt_or(opt_model(*old(accf))));
        assert(incoming@.skip(0) =~= incoming@);
    }
    let ghost start: Seq<Pkg> = cur@;
    let n = incoming.len();
    let mut i: usize = 0;
    while i < n
        invariant
            n == incoming@.len(),
            i <= n,
            dedup_into(start, incoming@) == dedup_into(cur@, incoming@.skip(i as int)),
        decreases n - i,
    {
        proof {
            assert(incoming@.skip(i as int).first() == incoming@[i as int]);
            assert(incoming@.skip(i as int).drop_first() =~= incoming@.skip(i + 1));
        }
        upsert_pkg_exec(&mut cur, incoming[i].duplicate());
        i += 1;
    }
    proof {
        assert(incoming@.skip(n as int) =~= Seq::<Pkg>::empty());
    }
    *accf = Some(cur);
}

/// The merged phase named `name`, combined field by field from every
/// contribution carrying that name, in priority order.
pub fn merge_one(contribs: &Vec<NewPhase>, name: &String) -> (p: NewPhase)
    ensures
        p.name@ == name@,
        opt_model(p.cmds) == fold_list_field(contribs@, name@, |q: NewPhase| q.cmds),
        opt_model(p.nix_libraries) == fold_list_field(
            contribs@,
            name@,
            |q: NewPhase| q.nix_libraries,
        ),
        opt_model(p.apt_pkgs) == fold_list_field(contribs@, name@, |q: NewPhase| q.apt_pkgs),
        opt_model(p.only_include_files) == fold_list_field(
            contribs@,
            name@,
            |q: NewPhase| q.only_include_files,
        ),
        opt_model(p.cache_directories) == fold_list_field(
            contribs@,
            name@,
            |q: NewPhase| q.cache_directories,
        ),
        opt_model(p.paths) == fold_list_field(contribs@, name@, |q: NewPhase| q.paths),
        opt_model(p.depends_on) == fold_list_field(contribs@, name@, |q: NewPhase| q.depends_on),
        opt_model(p.nix_pkgs) == fold_pkgs_field(contribs@, name@),
        crate::strutil::opt_chars(p.nixpacks_archive) == crate::strutil::opt_chars(
            fold_scalar_field(contribs@, name@, |q: NewPhase| q.nixpacks_archive),
        ),
    {
    let mut acc = NewPhase::new(name.as_str());
    let n = contribs.len();
    proof {
        assert(contribs@.subrange(0, 0) =~= Seq::<NewPhase>::empty());
    }
    let mut i: usize = 0;
    while i < n
        invariant
            n == contribs@.len(),
            i <= n,
            acc.name@ == name@,
            opt_model(acc.cmds) == fold_list_field(
                contribs@.subrange(0, i as int),
                name@,
                |q: NewPhase| q.cmds,
            ),
            opt_model(acc.nix_libraries) == fold_list_field(
                contribs@.subrange(0, i as int),
                name@,
                |q: NewPhase| q.nix_libraries,
            ),
            opt_model(acc.apt_pkgs) == fold_list_field(
                contribs@.subrange(0, i as int),
                name@,
                |q: NewPhase| q.apt_pkgs,
            ),
            opt_model(acc.only_include_files) == fold_list_field(
                contribs@.subrange(0, i as int),
                name@,
                |q: NewPhase| q.only_include_files,
            ),
            opt_model(acc.cache_directories) == fold_list_field(
                contribs@.subrange(0, i as int),
                name@,
                |q: NewPhase| q.cache_directories,
            ),
            opt_model(acc.paths) == fold_list_field(
                contribs@.subrange(0, i as int),
                name@,
                |q: NewPhase| q.paths,
            ),
            opt_model(acc.depends_on) == fold_list_field(
                contribs@.subrange(0, i as int),
                name@,
                |q: NewPhase| q.depends_on,
            ),
            opt_model(acc.nix_pkgs) == fold_pkgs_field(contribs@.subrange(0, i as int), name@),
            crate::strutil::opt_chars(acc.nixpacks_archive) == crate::strutil::opt_chars(
                fold_scalar_field(
                    contribs@.subrange(0, i as int),
                    name@,
                    |q: NewPhase| q.nixpacks_archive,
                ),
            ),
        decreases n - i,
    {
        proof {
            assert(contribs@.subrange(0, i + 1).drop_last() =~= contribs@.subrange(0, i as int));
            assert(contribs@.subrange(0, i + 1).last() == contribs@[i as int]);
        }
        let c = &contribs[i];
        if string_eq(&c.name, name) {
            if let Some(v) = &c.cmds {
                extend_opt(&mut acc.cmds, clone_strings(v));
            }
            if let Some(v) = &c.nix_libraries {
                extend_opt(&mut acc.nix_libraries, clone_strings(v));
            }
            if let Some(v) = &c.apt_pkgs {
                extend_opt(&mut acc.apt_pkgs, clone_strings(v));
            }
            if let Some(v) = &c.only_include_files {
                extend_opt(&mut acc.only_include_files, clone_strings(v));
            }
            if let Some(v) = &c.cache_directories {
                extend_opt(&mut acc.cache_directories, clone_strings(v));
            }
            if let Some(v) = &c.paths {
                extend_opt(&mut acc.paths, clone_strings(v));
            }
            if let Some(v) = &c.depends_on {
                extend_opt(&mut acc.depends_on, clone_strings(v));
            }
            if let Some(v) = &c.nix_pkgs {
                merge_pkgs_step(&mut acc.nix_pkgs, v);
            }
            if let Some(v) = &c.nixpacks_archive {
                acc.nixpacks_archive = Some(v.clone());
            }
        }
        i += 1;
    }
    proof {
        assert(contribs@.subrange(0, n as int) =~= contribs@);
    }
    acc
}

/// Merge a priority-ordered list of phase contributions into exactly one
/// phase per name, the names kept in order of first contribution.
pub fn merge_phases(contribs: &Vec<NewPhase>) -> (r: Vec<NewPhase>)
    ensures
        phase_names(r@) == distinct_names(contribs@),
        forall|k: int|
            0 <= k < r@.len() ==> {
                let n = #[trigger] r@[k].name@;
                &&& opt_model(r@[k].cmds) == fold_list_field(contribs@, n, |q: NewPhase| q.cmds)
                &&& opt_model(r@[k].nix_libraries) == fold_list_field(
                    contribs@,
                    n,
                    |q: NewPhase| q.nix_libraries,
                )
                &&& opt_model(r@[k].apt_pkgs) == fold_list_field(
                    contribs@,
                    n,
                    |q: NewPhase| q.apt_pkgs,
                )
                &&& opt_model(r@[k].only_include_files) == fold_list_field(
                    contribs@,
                    n,
                    |q: NewPhase| q.only_include_files,
                )
                &&& opt_model(r@[k].cache_directories) == fold_list_field(
                    contribs@,
                    n,
                    |q: NewPhase| q.cache_directories,
                )
                &&& opt_model(r@[k].paths) == fold_list_field(contribs@, n, |q: NewPhase| q.paths)
                &&& opt_model(r@[k].depends_on) == fold_list_field(
                    contribs@,
                    n,
                    |q: NewPhase| q.depends_on,
                )
                &&& opt_model(r@[k].nix_pkgs) == fold_pkgs_field(contribs@, n)
            },
{
    let mut names: Vec<String> = Vec::new();
    let n = contribs.len();
    proof {
        assert(contribs@.skip(0) =~= contribs@);
        assert(strs_chars(names@) =~= Seq::<Seq<char>>::empty());
    }
    let mut i: usize = 0;
    while i < n
        invariant
            n == contribs@.len(),
            i <= n,
            distinct_names(contribs@) == distinct_names_from(
                strs_chars(names@),
                contribs@.skip(i as int),
            ),
        decreases n - i,
    {
        proof {
            assert(contribs@.skip(i as int).first() == contribs@[i as int]);
            assert(contribs@.skip(i as int).drop_first() =~= contribs@.skip(i + 1));
        }
        if !contains_name(&names, &contribs[i].name) {
            let ghost pre: Seq<Seq<char>> = strs_chars(names@);
            names.push(contribs[i].name.clone());
            proof {
                assert(strs_chars(names@) =~= pre.push(contribs@[i as int].name@));
            }
        }
        i += 1;
    }
    proof {
        assert(contribs@.skip(n as int) =~= Seq::<NewPhase>::empty());
    }
    let count = names.len();
    let mut out: Vec<NewPhase> = Vec::new();
    let mut k: usize = 0;
    while k < count
        invariant
            count == names@.len(),
            strs_chars(names@) == distinct_names(contribs@),
            k <= count,
            out@.len() == k,
            phase_names(out@) == strs_chars(names@).subrange(0, k as int),
            forall|j: int|
                0 <= j < k ==> {
                    let nm = #[trigger] out@[j].name@;
                    &&& opt_model(out@[j].cmds) == fold_list_field(
                        contribs@,
                        nm,
                        |q: NewPhase| q.cmds,
                    )
                    &&& opt_model(out@[j].nix_libraries) == fold_list_field(
                        contribs@,
                        nm,
                        |q: NewPhase| q.nix_libraries,
                    )
                    &&& opt_model(out@[j].apt_pkgs) == fold_list_field(
                        contribs@,
                        nm,
                        |q: NewPhase| q.apt_pkgs,
                    )
                    &&& opt_model(out@[j].only_include_files) == fold_list_field(
                        contribs@,
                        nm,
                        |q: NewPhase| q.only_include_files,
                    )
                    &&& opt_model(out@[j].cache_directories) == fold_list_field(
                        contribs@,
                        nm,
                        |q: NewPhase| q.cache_directories,
                    )
                    &&& opt_model(out@[j].paths) == fold_list_field(
                        contribs@,
                        nm,
                        |q: NewPhase| q.paths,
                    )
                    &&& opt_model(out@[j].depends_on) == fold_list_field(
                        contribs@,
                        nm,
                        |q: NewPhase| q.depends_on,
                    )
                    &&& opt_model(out@[j].nix_pkgs) == fold_pkgs_field(contribs@, nm)
                },
        decreases count - k,
    {
        let merged = merge_one(contribs, &names[k]);
        out.push(merged);
        proof {
            assert(phase_names(out@) =~= strs_chars(names@).subrange(0, k + 1));
        }
        k += 1;
    }
    proof {
        assert(strs_chars(names@).subrange(0, count as int) =~= strs_chars(names@));
        assert(phase_names(out@) == distinct_names(contribs@));
    }
    out
}

} // verus!
