//! A small table keyed by names.

use vstd::prelude::*;
use vstd::string::*;

use crate::text::str_eq;

verus! {

/// The table that a list of entries stands for; of entries with the same name the first counts.
pub open spec fn table_of<V>(entries: Seq<(String, V)>) -> Map<Seq<char>, V>
    decreases entries.len(),
{
    if entries.len() == 0 {
        Map::empty()
    } else {
        table_of(entries.skip(1)).insert(entries[0].0@, entries[0].1)
    }
}

/// Values by name.
#[derive(Debug)]
pub struct NameMap<V> {
    entries: Vec<(String, V)>,
}

impl<V> View for NameMap<V> {
    type V = Map<Seq<char>, V>;

    closed spec fn view(&self) -> Map<Seq<char>, V> {
        table_of(self.entries@)
    }
}

impl<V> NameMap<V> {
    /// An empty table.
    pub fn new() -> (r: Self)
        ensures
            r@ == Map::<Seq<char>, V>::empty(),
    {
        NameMap { entries: Vec::new() }
    }

    /// Where the first entry of a name stands; the length of the list if there is none.
    fn position(&self, name: &str) -> (i: usize)
        ensures
            i <= self.entries@.len(),
            i < self.entries@.len() ==> self.entries@[i as int].0@ == name@,
            forall|k: int| 0 <= k < i ==> (#[trigger] self.entries@[k]).0@ != name@,
    {
        let mut i: usize = 0;
        while i < self.entries.len()
            invariant
                i <= self.entries@.len(),
                forall|k: int| 0 <= k < i ==> (#[trigger] self.entries@[k]).0@ != name@,
            decreases self.entries@.len() - i,
        {
            if str_eq(self.entries[i].0.as_str(), name) {
                return i;
            }
            i = i + 1;
        }
        i
    }

    /// The value of a name.
    pub fn get(&self, name: &str) -> (r: Option<&V>)
        ensures
            match r {
                Some(v) => self@.dom().contains(name@) && *v == self@[name@],
                None => !self@.dom().contains(name@),
            },
    {
        let i: usize = self.position(name);
        proof {
            lemma_table(self.entries@, name@, i as int);
        }
        if i < self.entries.len() {
            Some(&self.entries[i].1)
        } else {
            None
        }
    }

    /// Whether a name has a value.
    pub fn contains(&self, name: &str) -> (r: bool)
        ensures
            r == self@.dom().contains(name@),
    {
        self.get(name).is_some()
    }

    /// The value of a name, to be changed. The name must have one.
    pub fn get_mut(&mut self, name: &str) -> (v: &mut V)
        requires
            old(self)@.dom().contains(name@),
        ensures
            *v == old(self)@[name@],
            final(self)@ == old(self)@.insert(name@, *final(v)),
    {
        let i: usize = self.position(name);
        proof {
            lemma_table(self.entries@, name@, i as int);
            assert forall|e: (String, V)|
                e.0 == self.entries@[i as int].0 implies #[trigger] table_of(
                self.entries@.update(i as int, e),
            ) == table_of(self.entries@).insert(name@, e.1) by {
                lemma_update(self.entries@, name@, i as int, e);
            }
        }
        let entry = &mut self.entries[i];
        &mut entry.1
    }

    /// Gives a name a value, in place of the one that it had.
    pub fn insert(&mut self, name: String, value: V)
        ensures
            final(self)@ == old(self)@.insert(name@, value),
    {
        let i: usize = self.position(name.as_str());
        proof {
            lemma_table(self.entries@, name@, i as int);
        }
        if i < self.entries.len() {
            proof {
                lemma_update(self.entries@, name@, i as int, (name, value));
            }
            self.entries.set(i, (name, value));
        } else {
            proof {
                lemma_append(self.entries@, (name, value));
            }
            self.entries.push((name, value));
        }
    }
}

impl<V: Clone> NameMap<V> {
    /// Whether this holds the names of another table, each with a clone of its value.
    pub open spec fn copy_of(&self, other: NameMap<V>) -> bool {
        &&& self@.dom() == other@.dom()
        &&& forall|name: Seq<char>| #[trigger]
            other@.dom().contains(name) ==> cloned(other@[name], self@[name])
    }
}

impl<V: Clone> Clone for NameMap<V> {
    fn clone(&self) -> (r: Self)
        ensures
            r.copy_of(*self),
    {
        let mut entries: Vec<(String, V)> = Vec::new();
        let mut i: usize = 0;
        while i < self.entries.len()
            invariant
                i <= self.entries@.len(),
                entries@.len() == i,
                forall|k: int| #![trigger entries@[k]]
                    0 <= k < i ==> entries@[k].0@ == self.entries@[k].0@ && cloned(
                        self.entries@[k].1,
                        entries@[k].1,
                    ),
            decreases self.entries@.len() - i,
        {
            let value = self.entries[i].1.clone();
            entries.push((self.entries[i].0.clone(), value));
            i = i + 1;
        }
        proof {
            lemma_copy(self.entries@, entries@);
        }
        NameMap { entries }
    }
}

/// Lists of the same names with cloned values stand for tables of the same names with cloned
/// values.
proof fn lemma_copy<V: Clone>(entries: Seq<(String, V)>, copy: Seq<(String, V)>)
    requires
        entries.len() == copy.len(),
        forall|k: int| #![trigger copy[k]]
            0 <= k < entries.len() ==> copy[k].0@ == entries[k].0@ && cloned(
                entries[k].1,
                copy[k].1,
            ),
    ensures
        table_of(copy).dom() == table_of(entries).dom(),
        forall|name: Seq<char>| #[trigger]
            table_of(entries).dom().contains(name) ==> cloned(
                table_of(entries)[name],
                table_of(copy)[name],
            ),
    decreases entries.len(),
{
    if entries.len() > 0 {
        let rest = entries.skip(1);
        let copied = copy.skip(1);
        assert forall|k: int| #![trigger copied[k]] 0 <= k < rest.len() implies copied[k].0@
            == rest[k].0@ && cloned(rest[k].1, copied[k].1) by {
            assert(copied[k] == copy[k + 1]);
        }
        lemma_copy(rest, copied);
        assert(copy[0].0@ == entries[0].0@);
        assert(table_of(copy).dom() =~= table_of(entries).dom());
    }
}

/// What the table holds of a name whose first entry stands at `i`.
proof fn lemma_table<V>(entries: Seq<(String, V)>, name: Seq<char>, i: int)
    requires
        0 <= i <= entries.len(),
        i < entries.len() ==> entries[i].0@ == name,
        forall|k: int| 0 <= k < i ==> (#[trigger] entries[k]).0@ != name,
    ensures
        table_of(entries).dom().contains(name) == (i < entries.len()),
        i < entries.len() ==> table_of(entries)[name] == entries[i].1,
    decreases entries.len(),
{
    if entries.len() > 0 && i > 0 {
        let rest = entries.skip(1);
        assert forall|k: int| 0 <= k < i - 1 implies (#[trigger] rest[k]).0@ != name by {
            assert(rest[k] == entries[k + 1]);
        }
        if i < entries.len() {
            assert(rest[i - 1] == entries[i]);
        }
        lemma_table(rest, name, i - 1);
        assert(entries[0].0@ != name);
    }
}

/// Replacing the first entry of a name replaces its value.
proof fn lemma_update<V>(entries: Seq<(String, V)>, name: Seq<char>, i: int, e: (String, V))
    requires
        0 <= i < entries.len(),
        entries[i].0@ == name,
        e.0@ == name,
        forall|k: int| 0 <= k < i ==> (#[trigger] entries[k]).0@ != name,
    ensures
        table_of(entries.update(i, e)) == table_of(entries).insert(name, e.1),
    decreases entries.len(),
{
    let changed = entries.update(i, e);
    let rest = entries.skip(1);
    if i == 0 {
        assert(changed.skip(1) =~= rest);
        assert(table_of(changed) =~= table_of(entries).insert(name, e.1));
    } else {
        assert forall|k: int| 0 <= k < i - 1 implies (#[trigger] rest[k]).0@ != name by {
            assert(rest[k] == entries[k + 1]);
        }
        lemma_update(rest, name, i - 1, e);
        assert(changed.skip(1) =~= rest.update(i - 1, e));
        assert(entries[0].0@ != name);
        assert(table_of(changed) =~= table_of(entries).insert(name, e.1));
    }
}

/// An entry of a new name at the end gives that name its value.
proof fn lemma_append<V>(entries: Seq<(String, V)>, e: (String, V))
    requires
        forall|k: int| 0 <= k < entries.len() ==> (#[trigger] entries[k]).0@ != e.0@,
    ensures
        table_of(entries.push(e)) == table_of(entries).insert(e.0@, e.1),
    decreases entries.len(),
{
    let longer = entries.push(e);
    if entries.len() == 0 {
        assert(longer.skip(1) =~= Seq::<(String, V)>::empty());
        assert(table_of(longer.skip(1)) =~= Map::<Seq<char>, V>::empty());
        assert(table_of(longer) =~= table_of(entries).insert(e.0@, e.1));
    } else {
        let rest = entries.skip(1);
        assert forall|k: int| 0 <= k < rest.len() implies (#[trigger] rest[k]).0@ != e.0@ by {
            assert(rest[k] == entries[k + 1]);
        }
        lemma_append(rest, e);
        assert(longer.skip(1) =~= rest.push(e));
        assert(entries[0].0@ != e.0@);
        assert(table_of(longer) =~= table_of(entries).insert(e.0@, e.1));
    }
}

/// What was put under a name last is found under it, and under no other name does anything change.
/// A new table holds nothing.
pub proof fn law_last_value_is_found<V>(
    new: NameMap<V>,
    in_new: bool,
    table: &mut NameMap<V>,
    name: String,
    value: V,
    after: NameMap<V>,
    asked: &str,
    was: Option<&V>,
    now: Option<&V>,
    there: bool,
)
    requires
        call_ensures(NameMap::<V>::new, (), new),
        call_ensures(NameMap::<V>::contains, (&new, asked), in_new),
        call_ensures(NameMap::<V>::get, (&*old(table), asked), was),
        call_ensures(NameMap::<V>::insert, (table, name, value), ()),
        after == *final(table),
        call_ensures(NameMap::<V>::get, (&after, asked), now),
        call_ensures(NameMap::<V>::contains, (&after, asked), there),
    ensures
        !in_new,
        asked@ == name@ ==> (now matches Some(v) && *v == value),
        asked@ != name@ ==> (now is Some <==> was is Some),
        asked@ != name@ ==> (now matches Some(v) ==> (was matches Some(w) && *v == *w)),
        there <==> now is Some,
{
}

} // verus!
