//! Helpers for the optional list fields of phases.
//!
//! Phase fields distinguish "never set" (`None`) from "set to a list"
//! (`Some`). `opt_view` reads such a field as the sequence it denotes, the
//! empty sequence when unset; the exec helpers append to such a field while
//! preserving that distinction.

use vstd::prelude::*;

verus! {

/// The sequence an optional list field denotes: empty when unset.
pub open spec fn opt_view<T>(o: Option<Vec<T>>) -> Seq<T> {
    match o {
        Some(v) => v@,
        None => Seq::<T>::empty(),
    }
}

/// An optional list field as the optional sequence it holds.
pub open spec fn opt_model<T>(o: Option<Vec<T>>) -> Option<Seq<T>> {
    match o {
        Some(v) => Some(v@),
        None => None,
    }
}

/// An equal copy of a list of strings.
pub fn clone_strings(v: &Vec<String>) -> (r: Vec<String>)
    ensures
        r@ == v@,
{
    let n = v.len();
    let mut r: Vec<String> = Vec::new();
    let mut i: usize = 0;
    while i < n
        invariant
            n == v@.len(),
            i <= n,
            r@ == v@.subrange(0, i as int),
        decreases n - i,
    {
        r.push(v[i].clone());
        proof {
            assert(r@ =~= v@.subrange(0, i + 1));
        }
        i += 1;
    }
    proof {
        assert(v@.subrange(0, n as int) =~= v@);
    }
    r
}

/// Append one item to an optional list field, setting it if unset.
pub fn push_opt<T>(list: &mut Option<Vec<T>>, item: T)
    ensures
        *final(list) is Some,
        opt_view(*final(list)) == opt_view(*old(list)).push(item),
{
    match list.take() {
        Some(mut items) => {
            items.push(item);
            *list = Some(items);
        },
        None => {
            let items: Vec<T> = vec![item];
            proof {
                assert(opt_view(*old(list)).push(item) =~= items@);
            }
            *list = Some(items);
        },
    }
}

/// Append a whole list to an optional list field, setting it if unset.
pub fn extend_opt<T>(list: &mut Option<Vec<T>>, items: Vec<T>)
    ensures
        *final(list) is Some,
        opt_view(*final(list)) == opt_view(*old(list)) + items@,
{
    match list.take() {
        Some(mut cur) => {
            let mut tail = items;
            cur.append(&mut tail);
            *list = Some(cur);
        },
        None => {
            proof {
                assert(opt_view(*old(list)) + items@ =~= items@);
            }
            *list = Some(items);
        },
    }
}

} // verus!
