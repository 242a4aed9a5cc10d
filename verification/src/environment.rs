//! An environment table: variable names and the values they are set to.

use vstd::prelude::*;
use crate::text::same_text;

verus! {

/// A table of environment variables.
///
/// The table is a list of entries, each a name and its value. A name is set
/// to the value of the first entry that carries it.
#[derive(Debug)]
pub struct Environment {
    entries: Vec<(String, String)>,
}

impl Environment {
    /// Whether the entry at `i` carries `name`.
    spec fn holds_at(&self, name: Seq<char>, i: int) -> bool {
        0 <= i < self.entries@.len() && self.entries@[i].0@ == name
    }

    /// Whether the entry at `i` is the first that carries `name`.
    spec fn first_at(&self, name: Seq<char>, i: int) -> bool {
        self.holds_at(name, i) && forall|j: int| 0 <= j < i ==> !self.holds_at(name, j)
    }

    /// The position of the first entry that carries `name`, where there is one.
    spec fn position(&self, name: Seq<char>) -> int {
        choose|i: int| self.first_at(name, i)
    }

    /// The table as a map from each variable that is set to its value.
    pub closed spec fn view(&self) -> Map<Seq<char>, Seq<char>> {
        Map::new(
            |name: Seq<char>| exists|i: int| self.first_at(name, i),
            |name: Seq<char>| self.entries@[self.position(name)].1@,
        )
    }

    /// An environment in which no variable is set.
    pub fn new() -> (env: Environment)
        ensures
            env@ == Map::<Seq<char>, Seq<char>>::empty(),
    {
        let env = Environment { entries: Vec::new() };
        assert(env@ =~= Map::<Seq<char>, Seq<char>>::empty());
        env
    }

    /// Where the first entry for `name` stands, if the variable is set.
    fn find(&self, name: &str) -> (found: Option<usize>)
        ensures
            match found {
                Some(i) => self.first_at(name@, i as int),
                None => forall|i: int| !self.holds_at(name@, i),
            },
    {
        let mut i: usize = 0;
        while i < self.entries.len()
            invariant
                i <= self.entries@.len(),
                forall|j: int| 0 <= j < i ==> !self.holds_at(name@, j),
            decreases self.entries@.len() - i,
        {
            if same_text(self.entries[i].0.as_str(), name) {
                return Some(i);
            }
            i = i + 1;
        }
        None
    }

    /// Sets the variable `name` to `value`, in place of any value it had.
    pub fn set(&mut self, name: &str, value: &str)
        ensures
            final(self)@ == old(self)@.insert(name@, value@),
    {
        let entry = (name.to_owned(), value.to_owned());
        match self.find(name) {
            Some(i) => {
                self.entries.set(i, entry);
                proof {
                    self.lemma_after_set(*old(self), name@, value@, i as int);
                }
            },
            None => {
                self.entries.push(entry);
                proof {
                    self.lemma_after_set(*old(self), name@, value@, old(self).entries@.len() as int);
                }
            },
        }
    }

    /// The value of the variable `name`, or `None` if it is not set.
    pub fn get(&self, name: &str) -> (value: Option<&str>)
        ensures
            match value {
                Some(v) => self@.contains_key(name@) && self@[name@] == v@,
                None => !self@.contains_key(name@),
            },
    {
        match self.find(name) {
            Some(i) => {
                assert(self.first_at(name@, i as int));
                assert(self.position(name@) == i);
                Some(self.entries[i].1.as_str())
            },
            None => None,
        }
    }

    /// A table whose entries are those of `before`, but for the entry at `at`,
    /// which now carries `name` with `value` where no earlier entry carried
    /// `name`, maps `name` to `value` and every other name as `before` did.
    proof fn lemma_after_set(
        &self,
        before: Environment,
        name: Seq<char>,
        value: Seq<char>,
        at: int,
    )
        requires
            0 <= at < self.entries@.len(),
            self.entries@[at].0@ == name,
            self.entries@[at].1@ == value,
            forall|j: int| 0 <= j < at ==> !before.holds_at(name, j),
            at == before.entries@.len() || before.holds_at(name, at),
            before.entries@.len() <= self.entries@.len() <= before.entries@.len() + 1,
            self.entries@.len() == before.entries@.len() || at == before.entries@.len(),
            forall|i: int|
                0 <= i < before.entries@.len() && i != at ==> #[trigger] self.entries@[i]
                    == before.entries@[i],
        ensures
            self@ == before@.insert(name, value),
    {
        assert(self.first_at(name, at)) by {
            assert forall|j: int| 0 <= j < at implies !self.holds_at(name, j) by {
                assert(!before.holds_at(name, j));
            }
        }
        assert forall|n: Seq<char>, i: int| n != name implies self.first_at(n, i)
            == before.first_at(n, i) by {
            assert forall|j: int| self.holds_at(n, j) == before.holds_at(n, j) by {}
        }
        assert forall|n: Seq<char>| self@.contains_key(n) <==> before@.insert(
            name,
            value,
        ).contains_key(n) by {
            if n != name {
                if self@.contains_key(n) {
                    let i = choose|i: int| self.first_at(n, i);
                    assert(before.first_at(n, i));
                }
                if before@.contains_key(n) {
                    let i = choose|i: int| before.first_at(n, i);
                    assert(self.first_at(n, i));
                }
            }
        }
        assert forall|n: Seq<char>| self@.contains_key(n) implies self@[n] == before@.insert(
            name,
            value,
        )[n] by {
            let i = self.position(n);
            assert(self.first_at(n, i));
            if n == name {
                assert(i == at);
            } else {
                assert(before.first_at(n, i));
                assert(before.position(n) == i);
            }
        }
        assert(self@ =~= before@.insert(name, value));
    }
}

} // verus!
