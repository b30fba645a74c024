//! Package references: declarative names of system/runtime packages,
//! optionally pinned to a version. Two references denote the same package
//! exactly when their names agree; merging de-duplicates on that identity.

use vstd::prelude::*;

verus! {

/// One named package, optionally version-pinned.
#[derive(Debug, PartialEq)]
pub struct Pkg {
    pub name: String,
    pub version: Option<String>,
}

impl Pkg {
    /// A reference to `name` with no version pin.
    pub fn new(name: &str) -> (p: Pkg)
        ensures
            p.name@ == name@,
            p.version is None,
    {
        Pkg { name: name.to_owned(), version: None }
    }

    /// A reference to `name` pinned to `version`.
    pub fn pinned(name: &str, version: &str) -> (p: Pkg)
        ensures
            p.name@ == name@,
            p.version matches Some(v) && v@ == version@,
    {
        Pkg { name: name.to_owned(), version: Some(version.to_owned()) }
    }

    /// An equal copy of this reference.
    pub fn duplicate(&self) -> (p: Pkg)
        ensures
            p == *self,
    {
        let version = match &self.version {
            Some(v) => Some(v.clone()),
            None => None,
        };
        Pkg { name: self.name.clone(), version }
    }
}

/// An equal copy of a list of package references.
pub fn clone_pkgs(v: &Vec<Pkg>) -> (r: Vec<Pkg>)
    ensures
        r@ == v@,
{
    let n = v.len();
    let mut r: Vec<Pkg> = Vec::new();
    let mut i: usize = 0;
    while i < n
        invariant
            n == v@.len(),
            i <= n,
            r@ == v@.subrange(0, i as int),
        decreases n - i,
    {
        r.push(v[i].duplicate());
        proof {
            assert(r@ =~= v@.subrange(0, i + 1));
        }
        i += 1;
    }
    proof {
        assert(v@.subrange(0, n as int) =~= v@);
    }
    r
}

} // verus!
