//! A snapshot of environment variables: the lookup that resolution reads.

use vstd::prelude::*;

verus! {

/// Environment variables by name. Setting a name again replaces its value.
pub struct Env {
    entries: Vec<(String, String)>,
}

/// The map that a list of assignments leaves, later ones overriding earlier ones.
pub open spec fn assigned(s: Seq<(String, String)>) -> Map<Seq<char>, Seq<char>>
    decreases s.len(),
{
    if s.len() == 0 {
        Map::empty()
    } else {
        assigned(s.drop_last()).insert(s.last().0@, s.last().1@)
    }
}

/// The last assignment to `k` decides its value.
proof fn lemma_assigned_at(s: Seq<(String, String)>, k: Seq<char>, i: int)
    requires
        0 <= i < s.len(),
        s[i].0@ == k,
        forall|j: int| i < j < s.len() ==> (#[trigger] s[j]).0@ != k,
    ensures
        assigned(s).contains_key(k),
        assigned(s)[k] == s[i].1@,
    decreases s.len(),
{
    if i < s.len() - 1 {
        lemma_assigned_at(s.drop_last(), k, i);
    }
}

/// A name that is never assigned has no value.
proof fn lemma_unassigned(s: Seq<(String, String)>, k: Seq<char>)
    requires
        forall|j: int| 0 <= j < s.len() ==> (#[trigger] s[j]).0@ != k,
    ensures
        !assigned(s).contains_key(k),
    decreases s.len(),
{
    if s.len() > 0 {
        lemma_unassigned(s.drop_last(), k);
    }
}

impl View for Env {
    type V = Map<Seq<char>, Seq<char>>;

    closed spec fn view(&self) -> Map<Seq<char>, Seq<char>> {
        assigned(self.entries@)
    }
}

impl Env {
    /// An environment with no variables.
    pub fn new() -> (r: Env)
        ensures
            r@ == Map::<Seq<char>, Seq<char>>::empty(),
    {
        Env { entries: Vec::new() }
    }

    /// Sets the variable `name` to `value`.
    pub fn set(&mut self, name: &str, value: &str)
        ensures
            final(self)@ == old(self)@.insert(name@, value@),
    {
        self.entries.push((name.to_string(), value.to_string()));
        assert(self.entries@.drop_last() == old(self).entries@);
    }

    /// This environment with the variable `name` set to `value`.
    pub fn with(self, name: &str, value: &str) -> (r: Env)
        ensures
            r@ == self@.insert(name@, value@),
    {
        let mut e = self;
        e.set(name, value);
        e
    }

    /// The value of the variable `name`, if it is set.
    pub fn get(&self, name: &str) -> (r: Option<&String>)
        ensures
            match r {
                Some(v) => self@.contains_key(name@) && self@[name@] == v@,
                None => !self@.contains_key(name@),
            },
    {
        let key = name.to_string();
        let mut i = self.entries.len();
        while i > 0
            invariant
                i <= self.entries@.len(),
                key@ == name@,
                forall|j: int| i <= j < self.entries@.len() ==> (#[trigger] self.entries@[j]).0@
                    != name@,
            decreases i,
        {
            i = i - 1;
            if self.entries[i].0 == key {
                proof {
                    lemma_assigned_at(self.entries@, name@, i as int);
                }
                return Some(&self.entries[i].1);
            }
        }
        proof {
            lemma_unassigned(self.entries@, name@);
        }
        None
    }
}

} // verus!
