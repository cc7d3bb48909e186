//! A set of environment variables held in memory, read through the same
//! interface as the process environment.
use vstd::prelude::*;
use crate::trash;
use crate::trash::VarError;

verus! {

/// The value that the last setting of `name` among `vars` gave it, if any.
pub open spec fn value_in(vars: Seq<(String, String)>, name: Seq<char>) -> Option<Seq<char>>
    decreases vars.len(),
{
    if vars.len() == 0 {
        None
    } else if vars.last().0@ == name {
        Some(vars.last().1@)
    } else {
        value_in(vars.drop_last(), name)
    }
}

/// Environment variables held in memory.
pub struct Environment {
    vars: Vec<(String, String)>,
}

impl Environment {
    /// The value of the variable `name`, if it is set.
    pub closed spec fn value_of(&self, name: Seq<char>) -> Option<Seq<char>> {
        value_in(self.vars@, name)
    }

    /// An environment in which no variable is set.
    pub fn new() -> (r: Environment)
        ensures
            forall|n: Seq<char>| #[trigger] r.value_of(n) is None,
    {
        Environment { vars: Vec::new() }
    }

    /// Sets the variable `name` to `value`, replacing any value it had.
    pub fn set(&mut self, name: &str, value: &str)
        ensures
            forall|n: Seq<char>| #[trigger] final(self).value_of(n) == if n == name@ {
                Some(value@)
            } else {
                old(self).value_of(n)
            },
    {
        self.vars.push((String::from_str(name), String::from_str(value)));
        assert(self.vars@.drop_last() =~= old(self).vars@);
    }

    /// The value of the variable `name`, if it is set.
    pub fn get(&self, name: &str) -> (r: Option<String>)
        ensures
            r matches Some(v) ==> self.value_of(name@) == Some(v@),
            r is None ==> self.value_of(name@) is None,
    {
        let key = String::from_str(name);
        let mut i: usize = self.vars.len();
        assert(self.vars@.subrange(0, i as int) =~= self.vars@);
        while i > 0
            invariant
                i <= self.vars@.len(),
                key@ == name@,
                value_in(self.vars@.subrange(0, i as int), name@) == value_in(self.vars@, name@),
            decreases i,
        {
            let ghost s = self.vars@.subrange(0, i as int);
            assert(s.drop_last() =~= self.vars@.subrange(0, i - 1));
            if self.vars[i - 1].0 == key {
                return Some(self.vars[i - 1].1.clone());
            }
            i = i - 1;
        }
        None
    }
}

impl trash::Environment for Environment {
    fn var(&self, name: &str) -> Result<String, VarError> {
        match self.get(name) {
            Some(v) => Ok(v),
            None => Err(VarError::NotPresent),
        }
    }
}

} // verus!
