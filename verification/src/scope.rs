//! A scope: the bindings of names to values of one interpreter or of one
//! call.  A scope has no parent.

use crate::value::{SpecValue, Value};
use vstd::prelude::*;

verus! {

/// A mapping from names to values.
pub struct Scope {
    entries: Vec<(String, Value)>,
}

/// The mapping that a list of bindings stands for: a later binding of a
/// name replaces an earlier one.
pub open spec fn bindings(entries: Seq<(String, Value)>) -> Map<Seq<char>, SpecValue>
    decreases entries.len(),
{
    if entries.len() == 0 {
        Map::empty()
    } else {
        bindings(entries.drop_last()).insert(entries.last().0@, entries.last().1@)
    }
}

/// Whether `i` is the last binding of `name` in `entries`.
pub open spec fn is_last_binding(entries: Seq<(String, Value)>, name: Seq<char>, i: int) -> bool {
    &&& 0 <= i < entries.len()
    &&& entries[i].0@ == name
    &&& forall|j: int| i < j < entries.len() ==> (#[trigger] entries[j]).0@ != name
}

/// A name that no binding binds is not in the mapping.
pub proof fn lemma_bindings_absent(entries: Seq<(String, Value)>, name: Seq<char>)
    requires
        forall|j: int| 0 <= j < entries.len() ==> (#[trigger] entries[j]).0@ != name,
    ensures
        !bindings(entries).contains_key(name),
    decreases entries.len(),
{
    if entries.len() > 0 {
        lemma_bindings_absent(entries.drop_last(), name);
    }
}

/// The mapping gives a name the value of its last binding.
pub proof fn lemma_bindings_lookup(entries: Seq<(String, Value)>, name: Seq<char>, i: int)
    requires
        is_last_binding(entries, name, i),
    ensures
        bindings(entries).contains_key(name),
        bindings(entries)[name] == entries[i].1@,
    decreases entries.len(),
{
    if i < entries.len() - 1 {
        assert(entries.last().0@ != name);
        lemma_bindings_lookup(entries.drop_last(), name, i);
    }
}

/// Replacing the value of the last binding of a name is binding the name anew.
pub proof fn lemma_bindings_update(
    entries: Seq<(String, Value)>,
    name: Seq<char>,
    i: int,
    entry: (String, Value),
)
    requires
        is_last_binding(entries, name, i),
        entry.0@ == name,
    ensures
        bindings(entries.update(i, entry)) == bindings(entries).insert(name, entry.1@),
    decreases entries.len(),
{
    let updated = entries.update(i, entry);
    if i == entries.len() - 1 {
        assert(updated.drop_last() =~= entries.drop_last());
        assert(bindings(updated) =~= bindings(entries).insert(name, entry.1@));
    } else {
        assert(entries.last().0@ != name);
        lemma_bindings_update(entries.drop_last(), name, i, entry);
        assert(updated.drop_last() =~= entries.drop_last().update(i, entry));
        assert(bindings(updated) =~= bindings(entries).insert(name, entry.1@));
    }
}

impl View for Scope {
    type V = Map<Seq<char>, SpecValue>;

    closed spec fn view(&self) -> Map<Seq<char>, SpecValue> {
        bindings(self.entries@)
    }
}

impl Scope {
    /// A scope without bindings.
    pub fn new() -> (scope: Scope)
        ensures
            scope@ == Map::<Seq<char>, SpecValue>::empty(),
    {
        Scope { entries: Vec::new() }
    }

    /// The index of the last binding of `name`.
    fn find(&self, name: &String) -> (r: Option<usize>)
        ensures
            match r {
                Some(i) => is_last_binding(self.entries@, name@, i as int),
                None => forall|j: int|
                    0 <= j < self.entries@.len() ==> (#[trigger] self.entries@[j]).0@ != name@,
            },
    {
        let mut i: usize = self.entries.len();
        while i > 0
            invariant
                i <= self.entries.len(),
                forall|j: int|
                    i <= j < self.entries@.len() ==> (#[trigger] self.entries@[j]).0@ != name@,
            decreases i,
        {
            i -= 1;
            if self.entries[i].0 == *name {
                return Some(i);
            }
        }
        None
    }

    /// The value that `name` is bound to, if it is bound.
    pub fn get(&self, name: &str) -> (r: Option<Value>)
        ensures
            match r {
                Some(v) => self@.contains_key(name@) && v@ == self@[name@],
                None => !self@.contains_key(name@),
            },
    {
        let key = String::from_str(name);
        match self.find(&key) {
            Some(i) => {
                proof {
                    lemma_bindings_lookup(self.entries@, name@, i as int);
                }
                Some(self.entries[i].1.clone())
            },
            None => {
                proof {
                    lemma_bindings_absent(self.entries@, name@);
                }
                None
            },
        }
    }

    /// Binds `name` to `value`, in place of what it was bound to.
    pub fn set(&mut self, name: String, value: Value)
        ensures
            final(self)@ == old(self)@.insert(name@, value@),
    {
        match self.find(&name) {
            Some(i) => {
                proof {
                    lemma_bindings_update(self.entries@, name@, i as int, (name, value));
                }
                self.entries.set(i, (name, value));
            },
            None => {
                self.entries.push((name, value));
                assert(self.entries@.drop_last() =~= old(self).entries@);
            },
        }
    }
}

} // verus!
