//! A table keyed by name that remembers the order in which names were entered.

use crate::text::str_eq;
use vstd::prelude::*;

verus! {

/// Whether some entry of `pairs` carries `name`.
pub open spec fn has_name<V>(pairs: Seq<(Seq<char>, V)>, name: Seq<char>) -> bool {
    exists|i: int| 0 <= i < pairs.len() && (#[trigger] pairs[i]).0 == name
}

/// The place of an entry that carries `name`, where there is one.
pub open spec fn place_of<V>(pairs: Seq<(Seq<char>, V)>, name: Seq<char>) -> int {
    choose|i: int| 0 <= i < pairs.len() && (#[trigger] pairs[i]).0 == name
}

/// No two entries of `pairs` carry the same name.
pub open spec fn distinct_names<V>(pairs: Seq<(Seq<char>, V)>) -> bool {
    forall|i: int, j: int|
        0 <= i < j < pairs.len() ==> (#[trigger] pairs[i]).0 != (#[trigger] pairs[j]).0
}

/// `pairs` with the entry for `name` taken out, the rest keeping their order.
pub open spec fn without<V>(pairs: Seq<(Seq<char>, V)>, name: Seq<char>) -> Seq<(Seq<char>, V)> {
    if has_name(pairs, name) {
        pairs.remove(place_of(pairs, name))
    } else {
        pairs
    }
}

/// The mapping from names to values that `pairs` stands for.
pub open spec fn map_of<V>(pairs: Seq<(Seq<char>, V)>) -> Map<Seq<char>, V> {
    Map::new(|k: Seq<char>| has_name(pairs, k), |k: Seq<char>| pairs[place_of(pairs, k)].1)
}

/// With distinct names, a name is found at the one place that carries it.
pub proof fn lemma_place_is_unique<V>(pairs: Seq<(Seq<char>, V)>, i: int)
    requires
        distinct_names(pairs),
        0 <= i < pairs.len(),
    ensures
        has_name(pairs, pairs[i].0),
        place_of(pairs, pairs[i].0) == i,
{
    let name = pairs[i].0;
    assert(has_name(pairs, name));
    let j = place_of(pairs, name);
    assert(0 <= j < pairs.len() && pairs[j].0 == name);
    if j < i {
        assert(pairs[j].0 != pairs[i].0);
    } else if i < j {
        assert(pairs[i].0 != pairs[j].0);
    }
}

/// Appending an entry under a new name inserts it into the mapping.
pub proof fn lemma_push_inserts<V>(pairs: Seq<(Seq<char>, V)>, name: Seq<char>, value: V)
    requires
        distinct_names(pairs),
        !has_name(pairs, name),
    ensures
        distinct_names(pairs.push((name, value))),
        map_of(pairs.push((name, value))) == map_of(pairs).insert(name, value),
{
    let after = pairs.push((name, value));
    assert forall|i: int, j: int| 0 <= i < j < after.len() implies
        (#[trigger] after[i]).0 != (#[trigger] after[j]).0 by {
        if j < pairs.len() {
            assert(pairs[i].0 != pairs[j].0);
        } else {
            assert(after[i] == pairs[i]);
            if pairs[i].0 == name {
                assert(has_name(pairs, name));
            }
        }
    }
    assert forall|k: Seq<char>| has_name(after, k) <==> (k == name || has_name(pairs, k)) by {
        if has_name(after, k) {
            let i = place_of(after, k);
            if i < pairs.len() {
                assert(pairs[i].0 == k);
            }
        }
        if k == name {
            assert(after[pairs.len() as int].0 == name);
        }
        if has_name(pairs, k) {
            let i = place_of(pairs, k);
            assert(after[i].0 == k);
        }
    }
    assert forall|k: Seq<char>| has_name(after, k) implies
        #[trigger] map_of(after)[k] == map_of(pairs).insert(name, value)[k] by {
        let i = place_of(after, k);
        assert(0 <= i < after.len() && after[i].0 == k);
        if k == name {
            if i < pairs.len() {
                assert(pairs[i].0 == name);
            }
        } else {
            assert(i < pairs.len());
            assert(pairs[i].0 == k);
            lemma_place_is_unique(pairs, i);
        }
    }
    assert(map_of(after) =~= map_of(pairs).insert(name, value));
}

/// Taking out the entry at place `i` removes its name from the mapping.
pub proof fn lemma_remove_removes<V>(pairs: Seq<(Seq<char>, V)>, i: int)
    requires
        distinct_names(pairs),
        0 <= i < pairs.len(),
    ensures
        distinct_names(pairs.remove(i)),
        !has_name(pairs.remove(i), pairs[i].0),
        map_of(pairs.remove(i)) == map_of(pairs).remove(pairs[i].0),
        without(pairs, pairs[i].0) == pairs.remove(i),
{
    let after = pairs.remove(i);
    let name = pairs[i].0;
    lemma_place_is_unique(pairs, i);
    assert forall|a: int| 0 <= a < after.len() implies
        #[trigger] after[a] == pairs[if a < i { a } else { a + 1 }] by {}
    assert forall|a: int, b: int| 0 <= a < b < after.len() implies
        (#[trigger] after[a]).0 != (#[trigger] after[b]).0 by {
        let a0 = if a < i { a } else { a + 1 };
        let b0 = if b < i { b } else { b + 1 };
        assert(after[a] == pairs[a0]);
        assert(after[b] == pairs[b0]);
        assert(pairs[a0].0 != pairs[b0].0);
    }
    assert forall|a: int| 0 <= a < after.len() implies (#[trigger] after[a]).0 != name by {
        let a0 = if a < i { a } else { a + 1 };
        assert(after[a] == pairs[a0]);
        if a0 < i {
            assert(pairs[a0].0 != pairs[i].0);
        } else {
            assert(pairs[i].0 != pairs[a0].0);
        }
    }
    assert forall|k: Seq<char>| has_name(after, k) <==> (k != name && has_name(pairs, k)) by {
        if has_name(after, k) {
            let a = place_of(after, k);
            let a0 = if a < i { a } else { a + 1 };
            assert(after[a] == pairs[a0]);
            assert(pairs[a0].0 == k);
        }
        if k != name && has_name(pairs, k) {
            let b = place_of(pairs, k);
            assert(b != i);
            let a = if b < i { b } else { b - 1 };
            assert(after[a] == pairs[b]);
            assert(after[a].0 == k);
        }
    }
    assert forall|k: Seq<char>| has_name(after, k) implies
        #[trigger] map_of(after)[k] == map_of(pairs)[k] by {
        let a = place_of(after, k);
        let a0 = if a < i { a } else { a + 1 };
        assert(after[a] == pairs[a0]);
        lemma_place_is_unique(pairs, a0);
    }
    assert(map_of(after) =~= map_of(pairs).remove(name));
}

/// Taking a name out of a table that does not hold it changes nothing.
pub proof fn lemma_without_absent<V>(pairs: Seq<(Seq<char>, V)>, name: Seq<char>)
    requires
        !has_name(pairs, name),
    ensures
        without(pairs, name) == pairs,
        map_of(pairs).remove(name) == map_of(pairs),
{
    assert(map_of(pairs).remove(name) =~= map_of(pairs));
}

/// A table with distinct names has as many keys as entries.
pub proof fn lemma_map_len<V>(pairs: Seq<(Seq<char>, V)>)
    requires
        distinct_names(pairs),
    ensures
        map_of(pairs).dom().finite(),
        map_of(pairs).len() == pairs.len(),
    decreases pairs.len(),
{
    if pairs.len() == 0 {
        assert(map_of(pairs) =~= Map::<Seq<char>, V>::empty());
    } else {
        let last = pairs.last();
        let front = pairs.drop_last();
        assert forall|i: int, j: int| 0 <= i < j < front.len() implies
        (#[trigger] front[i]).0 != (#[trigger] front[j]).0 by {
            assert(front[i] == pairs[i]);
            assert(front[j] == pairs[j]);
        }
        if has_name(front, last.0) {
            let i = place_of(front, last.0);
            assert(front[i] == pairs[i]);
            assert(pairs[i].0 != pairs[pairs.len() - 1].0);
        }
        lemma_map_len(front);
        lemma_push_inserts(front, last.0, last.1);
        assert(front.push((last.0, last.1)) =~= pairs);
    }
}

/// A table from names to values of type `V`. No name occurs twice; entering a
/// name again replaces its value and moves the name to the end of the order.
#[derive(Debug)]
pub struct NameMap<V> {
    entries: Vec<(String, V)>,
}

impl<V> View for NameMap<V> {
    type V = Map<Seq<char>, V>;

    /// The mapping that the table stands for.
    open spec fn view(&self) -> Map<Seq<char>, V> {
        map_of(self.pairs())
    }
}

impl<V> NameMap<V> {
    #[verifier::type_invariant]
    spec fn names_are_distinct(&self) -> bool {
        distinct_names(self.pairs())
    }

    /// The entries as pairs of name and value, oldest first.
    pub closed spec fn pairs(&self) -> Seq<(Seq<char>, V)> {
        Seq::new(self.entries@.len(), |i: int| (self.entries@[i].0@, self.entries@[i].1))
    }

    /// No name occurs twice. Every table that executable code can hold is well
    /// formed; laws about tables assume it.
    pub open spec fn wf(&self) -> bool {
        distinct_names(self.pairs())
    }

    /// The empty table.
    pub fn new() -> (table: NameMap<V>)
        ensures
            table.wf(),
            table.pairs() == Seq::<(Seq<char>, V)>::empty(),
            table@ == Map::<Seq<char>, V>::empty(),
    {
        let table = NameMap { entries: Vec::new() };
        proof {
            assert(table.pairs() =~= Seq::<(Seq<char>, V)>::empty());
            assert(table@ =~= Map::<Seq<char>, V>::empty());
        }
        table
    }

    /// The number of entries.
    pub fn len(&self) -> (n: usize)
        ensures
            self.wf(),
            n == self.pairs().len(),
            n == self@.len(),
    {
        proof {
            use_type_invariant(self);
            lemma_map_len(self.pairs());
        }
        self.entries.len()
    }

    /// The place of the entry for `name`, if there is one.
    pub fn position(&self, name: &str) -> (found: Option<usize>)
        ensures
            self.wf(),
            match found {
                Some(i) => i < self.pairs().len() && self.pairs()[i as int].0 == name@
                    && has_name(self.pairs(), name@) && place_of(self.pairs(), name@) == i,
                None => !has_name(self.pairs(), name@),
            },
    {
        proof {
            use_type_invariant(self);
        }
        let mut i: usize = 0;
        while i < self.entries.len()
            invariant
                self.wf(),
                i <= self.entries@.len(),
                forall|j: int| 0 <= j < i ==> (#[trigger] self.pairs()[j]).0 != name@,
            decreases self.entries@.len() - i,
        {
            if str_eq(self.entries[i].0.as_str(), name) {
                proof {
                    lemma_place_is_unique(self.pairs(), i as int);
                }
                return Some(i);
            }
            i += 1;
        }
        None
    }

    /// Whether the table has an entry for `name`.
    pub fn contains(&self, name: &str) -> (found: bool)
        ensures
            self.wf(),
            found == self@.contains_key(name@),
    {
        self.position(name).is_some()
    }

    /// The value entered under `name`, if there is one.
    pub fn get(&self, name: &str) -> (found: Option<&V>)
        ensures
            self.wf(),
            match found {
                Some(value) => self@.contains_key(name@) && *value == self@[name@],
                None => !self@.contains_key(name@),
            },
    {
        match self.position(name) {
            Some(i) => Some(&self.entries[i].1),
            None => None,
        }
    }

    /// The name at place `i` of the order.
    pub fn name_at(&self, i: usize) -> (name: &str)
        requires
            i < self.pairs().len(),
        ensures
            name@ == self.pairs()[i as int].0,
    {
        self.entries[i].0.as_str()
    }

    /// The value at place `i` of the order.
    pub fn value_at(&self, i: usize) -> (value: &V)
        requires
            i < self.pairs().len(),
        ensures
            *value == self.pairs()[i as int].1,
    {
        &self.entries[i].1
    }

    /// Enters `value` under `name` at the end of the order. An earlier entry
    /// for `name` leaves the table and its value is handed back.
    pub fn insert(&mut self, name: String, value: V) -> (replaced: Option<V>)
        ensures
            final(self).wf(),
            final(self).pairs() == without(old(self).pairs(), name@).push((name@, value)),
            final(self)@ == old(self)@.insert(name@, value),
            replaced == if old(self)@.contains_key(name@) {
                Some(old(self)@[name@])
            } else {
                None::<V>
            },
    {
        proof {
            use_type_invariant(&*self);
        }
        let ghost before = self.pairs();
        let found = self.position(name.as_str());
        let mut entries: Vec<(String, V)> = Vec::new();
        std::mem::swap(&mut self.entries, &mut entries);
        assert(self.pairs() =~= Seq::<(Seq<char>, V)>::empty());
        let ghost held = Seq::new(entries@.len(), |i: int| (entries@[i].0@, entries@[i].1));
        assert(held =~= before);
        let replaced = match found {
            Some(i) => {
                proof {
                    lemma_remove_removes(before, i as int);
                }
                let entry = entries.remove(i);
                Some(entry.1)
            },
            None => {
                proof {
                    lemma_without_absent(before, name@);
                }
                None
            },
        };
        let ghost middle = Seq::new(entries@.len(), |i: int| (entries@[i].0@, entries@[i].1));
        proof {
            assert(middle =~= without(before, name@));
            lemma_push_inserts(middle, name@, value);
            assert(map_of(before).remove(name@).insert(name@, value) =~= map_of(before).insert(
                name@,
                value,
            ));
        }
        entries.push((name, value));
        let ghost after = Seq::new(entries@.len(), |i: int| (entries@[i].0@, entries@[i].1));
        assert(after =~= middle.push((name@, value)));
        self.entries = entries;
        assert(self.pairs() =~= after);
        replaced
    }

    /// Takes the entry for `name` out of the table and hands its value back;
    /// the other entries keep their order. Without such an entry nothing
    /// changes.
    pub fn remove(&mut self, name: &str) -> (removed: Option<V>)
        ensures
            final(self).wf(),
            final(self).pairs() == without(old(self).pairs(), name@),
            final(self)@ == old(self)@.remove(name@),
            removed == if old(self)@.contains_key(name@) {
                Some(old(self)@[name@])
            } else {
                None::<V>
            },
    {
        proof {
            use_type_invariant(&*self);
        }
        let ghost before = self.pairs();
        match self.position(name) {
            Some(i) => {
                proof {
                    lemma_remove_removes(before, i as int);
                }
                let mut entries: Vec<(String, V)> = Vec::new();
                std::mem::swap(&mut self.entries, &mut entries);
                assert(self.pairs() =~= Seq::<(Seq<char>, V)>::empty());
                let entry = entries.remove(i);
                let ghost after = Seq::new(
                    entries@.len(),
                    |i: int| (entries@[i].0@, entries@[i].1),
                );
                assert(after =~= before.remove(i as int));
                self.entries = entries;
                assert(self.pairs() =~= after);
                Some(entry.1)
            },
            None => {
                proof {
                    lemma_without_absent(before, name@);
                }
                None
            },
        }
    }
}

} // verus!
