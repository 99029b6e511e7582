//! Small maps from names to values, kept as association lists.

use vstd::prelude::*;

verus! {

/// The map that a sequence of bindings stands for; of two bindings of one
/// name the later one counts.
pub open spec fn bindings<V>(entries: Seq<(String, V)>) -> Map<Seq<char>, V>
    decreases entries.len(),
{
    if entries.len() == 0 {
        Map::empty()
    } else {
        bindings(entries.drop_last()).insert(entries.last().0@, entries.last().1)
    }
}

/// No name is bound twice.
pub open spec fn distinct<V>(entries: Seq<(String, V)>) -> bool {
    forall|i: int, j: int|
        0 <= i < j < entries.len() ==> (#[trigger] entries[i]).0@ != (#[trigger] entries[j]).0@
}

/// A name that no binding has is not in the map.
pub proof fn lemma_absent<V>(entries: Seq<(String, V)>, name: Seq<char>)
    requires
        forall|i: int| 0 <= i < entries.len() ==> (#[trigger] entries[i]).0@ != name,
    ensures
        !bindings(entries).contains_key(name),
    decreases entries.len(),
{
    if entries.len() > 0 {
        lemma_absent(entries.drop_last(), name);
    }
}

/// The binding at `at` is the one that the map has for its name.
pub proof fn lemma_present<V>(entries: Seq<(String, V)>, at: int)
    requires
        distinct(entries),
        0 <= at < entries.len(),
    ensures
        bindings(entries).contains_key(entries[at].0@),
        bindings(entries)[entries[at].0@] == entries[at].1,
    decreases entries.len(),
{
    if at < entries.len() - 1 {
        lemma_present(entries.drop_last(), at);
    }
}

/// Rebinding the name at `at` in place is inserting into the map.
pub proof fn lemma_rebound<V>(entries: Seq<(String, V)>, at: int, name: String, value: V)
    requires
        distinct(entries),
        0 <= at < entries.len(),
        entries[at].0@ == name@,
    ensures
        distinct(entries.update(at, (name, value))),
        bindings(entries.update(at, (name, value))) == bindings(entries).insert(name@, value),
    decreases entries.len(),
{
    let changed = entries.update(at, (name, value));
    if at == entries.len() - 1 {
        assert(changed.drop_last() =~= entries.drop_last());
        assert(bindings(changed) =~= bindings(entries).insert(name@, value));
    } else {
        lemma_rebound(entries.drop_last(), at, name, value);
        assert(changed.drop_last() =~= entries.drop_last().update(at, (name, value)));
        assert(entries[at].0@ != entries.last().0@);
        assert(bindings(changed) =~= bindings(entries).insert(name@, value));
    }
}

/// A map from names to values. Inserting a name that is bound replaces its
/// value.
#[derive(Debug)]
pub struct Table<V> {
    entries: Vec<(String, V)>,
}

impl<V> View for Table<V> {
    type V = Map<Seq<char>, V>;

    closed spec fn view(&self) -> Map<Seq<char>, V> {
        bindings(self.entries@)
    }
}

impl<V> Table<V> {
    /// No name is bound twice.
    pub closed spec fn wf(&self) -> bool {
        distinct(self.entries@)
    }

    pub fn new() -> (t: Self)
        ensures
            t.wf(),
            t@ == Map::<Seq<char>, V>::empty(),
    {
        Table { entries: Vec::new() }
    }

    fn position(&self, name: &String) -> (r: Option<usize>)
        ensures
            match r {
                Some(at) => at < self.entries@.len() && self.entries@[at as int].0@ == name@,
                None => forall|i: int|
                    0 <= i < self.entries@.len() ==> (#[trigger] self.entries@[i]).0@ != name@,
            },
    {
        let mut i: usize = 0;
        while i < self.entries.len()
            invariant
                i <= self.entries.len(),
                forall|j: int| 0 <= j < i ==> (#[trigger] self.entries@[j]).0@ != name@,
            decreases self.entries.len() - i,
        {
            if self.entries[i].0 == *name {
                return Some(i);
            }
            i += 1;
        }
        None
    }

    /// The value bound to `name`, if any.
    pub fn get(&self, name: &String) -> (r: Option<&V>)
        requires
            self.wf(),
        ensures
            match r {
                Some(value) => self@.contains_key(name@) && *value == self@[name@],
                None => !self@.contains_key(name@),
            },
    {
        match self.position(name) {
            Some(at) => {
                proof {
                    lemma_present(self.entries@, at as int);
                }
                Some(&self.entries[at].1)
            },
            None => {
                proof {
                    lemma_absent(self.entries@, name@);
                }
                None
            },
        }
    }

    pub fn contains_key(&self, name: &String) -> (b: bool)
        requires
            self.wf(),
        ensures
            b == self@.contains_key(name@),
    {
        self.get(name).is_some()
    }

    /// Binds `name` to `value`, in place of what it was bound to.
    pub fn insert(&mut self, name: String, value: V)
        requires
            old(self).wf(),
        ensures
            final(self).wf(),
            final(self)@ == old(self)@.insert(name@, value),
    {
        match self.position(&name) {
            Some(at) => {
                proof {
                    lemma_rebound(self.entries@, at as int, name, value);
                }
                self.entries.set(at, (name, value));
            },
            None => {
                let ghost before = self.entries@;
                self.entries.push((name, value));
                proof {
                    assert(self.entries@.drop_last() =~= before);
                }
            },
        }
    }
}

} // verus!
