//! The process configuration a generation runs against: a read-only list of
//! named variables, looked up by name and passed through into the plan.

use vstd::prelude::*;

use crate::strutil::string_eq;

verus! {

/// One configuration variable.
#[derive(Debug, Clone, PartialEq)]
pub struct EnvVar {
    pub name: String,
    pub value: String,
}

/// The first value bound to `name`, by characters.
pub open spec fn env_lookup(vars: Seq<EnvVar>, name: Seq<char>) -> Option<Seq<char>>
    decreases vars.len(),
{
    if vars.len() == 0 {
        None
    } else if vars.first().name@ == name {
        Some(vars.first().value@)
    } else {
        env_lookup(vars.drop_first(), name)
    }
}

/// An equal copy of a list of variables.
pub fn clone_env_vars(v: &Vec<EnvVar>) -> (r: Vec<EnvVar>)
    ensures
        r@ == v@,
{
    let n = v.len();
    let mut r: Vec<EnvVar> = Vec::new();
    let mut i: usize = 0;
    while i < n
        invariant
            n == v@.len(),
            i <= n,
            r@ == v@.subrange(0, i as int),
        decreases n - i,
    {
        let copy = EnvVar { name: v[i].name.clone(), value: v[i].value.clone() };
        assert(copy == v@[i as int]);
        r.push(copy);
        proof {
            assert(r@ =~= v@.subrange(0, i + 1));
        }
        i += 1;
    }
    proof {
        assert(v@.subrange(0, n as int) =~= v@);
    }
    r
}

/// The configuration store: constructed once per invocation, never written.
#[derive(Debug)]
pub struct Environment {
    pub vars: Vec<EnvVar>,
}

impl Environment {
    pub fn new(vars: Vec<EnvVar>) -> (e: Environment)
        ensures
            e.vars@ == vars@,
    {
        Environment { vars }
    }

    /// Look a variable up by name.
    pub fn get(&self, name: &str) -> (r: Option<String>)
        ensures
            match r {
                Some(v) => env_lookup(self.vars@, name@) == Some(v@),
                None => env_lookup(self.vars@, name@) is None,
            },
    {
        let key = name.to_owned();
        let n = self.vars.len();
        proof {
            assert(self.vars@.skip(0) =~= self.vars@);
        }
        let mut i: usize = 0;
        while i < n
            invariant
                n == self.vars@.len(),
                i <= n,
                key@ == name@,
                env_lookup(self.vars@, name@) == env_lookup(self.vars@.skip(i as int), name@),
            decreases n - i,
        {
            proof {
                assert(self.vars@.skip(i as int).first() == self.vars@[i as int]);
                assert(self.vars@.skip(i as int).drop_first() =~= self.vars@.skip(i + 1));
            }
            if string_eq(&self.vars[i].name, &key) {
                return Some(self.vars[i].value.clone());
            }
            i += 1;
        }
        proof {
            assert(self.vars@.skip(n as int) =~= Seq::<EnvVar>::empty());
        }
        None
    }
}

} // verus!
