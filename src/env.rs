//! A snapshot of environment variables, handed to the configuration
//! resolver so that it never reads process state itself.
use vstd::prelude::*;

verus! {

/// The value of `name` in `entries`: the last entry with that name wins.
pub open spec fn env_lookup(entries: Seq<(Seq<char>, Seq<char>)>, name: Seq<char>) -> Option<
    Seq<char>,
>
    decreases entries.len(),
{
    if entries.len() == 0 {
        None
    } else if entries.last().0 == name {
        Some(entries.last().1)
    } else {
        env_lookup(entries.drop_last(), name)
    }
}

pub struct EnvVars {
    entries: Vec<(String, String)>,
}

impl View for EnvVars {
    type V = Seq<(Seq<char>, Seq<char>)>;

    closed spec fn view(&self) -> Seq<(Seq<char>, Seq<char>)> {
        self.entries@.map_values(|p: (String, String)| (p.0@, p.1@))
    }
}

impl EnvVars {
    /// A snapshot in which no variable is set.
    pub fn new() -> (r: EnvVars)
        ensures
            r@ == Seq::<(Seq<char>, Seq<char>)>::empty(),
    {
        EnvVars { entries: Vec::new() }
    }

    /// Sets `name` to `value`, replacing any earlier value.
    pub fn set(&mut self, name: &str, value: &str)
        ensures
            final(self)@ == old(self)@.push((name@, value@)),
    {
        self.entries.push((name.to_owned(), value.to_owned()));
        assert(self@ =~= old(self)@.push((name@, value@)));
    }

    /// The value of `name`, if it is set.
    pub fn get(&self, name: &str) -> (r: Option<String>)
        ensures
            match r {
                Some(v) => env_lookup(self@, name@) == Some(v@),
                None => env_lookup(self@, name@) is None,
            },
    {
        let key = name.to_owned();
        let mut i: usize = self.entries.len();
        assert(self@.subrange(0, i as int) =~= self@);
        while i > 0
            invariant
                i <= self.entries.len(),
                key@ == name@,
                env_lookup(self@, name@) == env_lookup(self@.subrange(0, i as int), name@),
            decreases i,
        {
            let ghost prefix = self@.subrange(0, i as int);
            assert(prefix.drop_last() =~= self@.subrange(0, i - 1));
            if self.entries[i - 1].0 == key {
                return Some(self.entries[i - 1].1.clone());
            }
            i = i - 1;
        }
        None
    }
}

} // verus!
