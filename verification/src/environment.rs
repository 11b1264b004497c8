//! A snapshot of process environment variables, taken as plain values so that
//! the resolution logic can be stated and proved over it.
use vstd::prelude::*;

use crate::text::str_eq;

verus! {

/// The value bound to `name` in `vars`: the first binding of that name.
pub open spec fn lookup(vars: Seq<(Seq<char>, Seq<char>)>, name: Seq<char>) -> Option<Seq<char>>
    decreases vars.len(),
{
    if vars.len() == 0 {
        None
    } else if vars[0].0 == name {
        Some(vars[0].1)
    } else {
        lookup(vars.drop_first(), name)
    }
}

/// A value that counts as set: present and not empty.
pub open spec fn non_empty(v: Option<Seq<char>>) -> Option<Seq<char>> {
    match v {
        Some(s) => if s.len() > 0 { Some(s) } else { None },
        None => None,
    }
}

/// The value of `name` in `vars` when it is set to a non-empty string.
pub open spec fn lookup_set(vars: Seq<(Seq<char>, Seq<char>)>, name: Seq<char>) -> Option<Seq<char>> {
    non_empty(lookup(vars, name))
}

/// Environment variables as name/value pairs. A name may occur more than once;
/// its first occurrence is the one that counts.
pub struct EnvSnapshot {
    pub vars: Vec<(String, String)>,
}

impl View for EnvSnapshot {
    type V = Seq<(Seq<char>, Seq<char>)>;

    open spec fn view(&self) -> Seq<(Seq<char>, Seq<char>)> {
        self.vars@.map_values(|p: (String, String)| (p.0@, p.1@))
    }
}

impl EnvSnapshot {
    /// A snapshot holding exactly the given pairs, in order.
    pub fn new(vars: Vec<(String, String)>) -> (r: Self)
        ensures
            r.vars == vars,
    {
        EnvSnapshot { vars }
    }

    /// The value of the variable `name`, or `None` when it is not set.
    pub fn get(&self, name: &str) -> (r: Option<String>)
        ensures
            r matches Some(v) ==> lookup(self@, name@) == Some(v@),
            r is None ==> lookup(self@, name@) is None,
    {
        let n = self.vars.len();
        let mut i: usize = 0;
        assert(self@.skip(0) =~= self@);
        while i < n
            invariant
                n == self.vars@.len(),
                n == self@.len(),
                i <= n,
                lookup(self@, name@) == lookup(self@.skip(i as int), name@),
            decreases n - i,
        {
            let ghost rest = self@.skip(i as int);
            assert(rest[0] == self@[i as int]);
            assert(rest.drop_first() =~= self@.skip(i + 1));
            if str_eq(self.vars[i].0.as_str(), name) {
                return Some(self.vars[i].1.clone());
            }
            i = i + 1;
        }
        None
    }

    /// The value of the variable `name` when it is set to a non-empty string.
    pub fn get_set(&self, name: &str) -> (r: Option<String>)
        ensures
            r matches Some(v) ==> lookup_set(self@, name@) == Some(v@),
            r is None ==> lookup_set(self@, name@) is None,
    {
        match self.get(name) {
            Some(v) => {
                if v.as_str().is_empty() {
                    None
                } else {
                    Some(v)
                }
            },
            None => None,
        }
    }
}

} // verus!

verus! {

/// The first binding of a name is the one that counts: a binding at the
/// front gives its value, a binding of another name is skipped, and nothing
/// is bound in the empty environment.
pub proof fn lemma_lookup_first_binding(
    name: Seq<char>,
    other: Seq<char>,
    value: Seq<char>,
    rest: Seq<(Seq<char>, Seq<char>)>,
)
    requires
        other != name,
    ensures
        lookup(seq![(name, value)] + rest, name) == Some(value),
        lookup(seq![(other, value)] + rest, name) == lookup(rest, name),
        lookup(Seq::<(Seq<char>, Seq<char>)>::empty(), name) is None,
{
    assert((seq![(name, value)] + rest).drop_first() =~= rest);
    assert((seq![(other, value)] + rest).drop_first() =~= rest);
}

/// A variable counts as set exactly when it is bound to a non-empty value.
pub proof fn lemma_set_means_non_empty(vars: Seq<(Seq<char>, Seq<char>)>, name: Seq<char>)
    ensures
        forall|v: Seq<char>| lookup_set(vars, name) == Some(v) ==> v.len() > 0 && lookup(vars, name) == Some(v),
        forall|v: Seq<char>| lookup(vars, name) == Some(v) && v.len() > 0 ==> lookup_set(vars, name) == Some(v),
        lookup(vars, name) == Some(Seq::<char>::empty()) ==> lookup_set(vars, name) is None,
{
}

} // verus!
