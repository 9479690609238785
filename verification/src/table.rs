//! A finite map whose keys are compared by their views.
use vstd::prelude::*;

verus! {

/// A type that can key a [`Table`]: two keys are the same when their views are.
pub trait Key: View + Sized {
    /// Tells whether two keys are the same.
    fn same(&self, other: &Self) -> (b: bool)
        ensures
            b == (self@ == other@),
    ;
}

impl Key for String {
    fn same(&self, other: &Self) -> (b: bool) {
        *self == *other
    }
}

/// The map that a list of pairs stands for: of two pairs with one key, the later wins.
pub open spec fn pairs_map<K: View, V>(pairs: Seq<(K, V)>) -> Map<K::V, V>
    decreases pairs.len(),
{
    if pairs.len() == 0 {
        Map::empty()
    } else {
        pairs_map(pairs.drop_last()).insert(pairs.last().0@, pairs.last().1)
    }
}

/// No two pairs have one key.
pub open spec fn distinct_keys<K: View, V>(pairs: Seq<(K, V)>) -> bool {
    forall|i: int, j: int|
        0 <= i < j < pairs.len() ==> (#[trigger] pairs[i]).0@ != (#[trigger] pairs[j]).0@
}

/// The keys of the map are the keys of the pairs.
pub proof fn lemma_pairs_map_keys<K: View, V>(pairs: Seq<(K, V)>, k: K::V)
    ensures
        pairs_map(pairs).contains_key(k) <==> exists|i: int|
            0 <= i < pairs.len() && (#[trigger] pairs[i]).0@ == k,
    decreases pairs.len(),
{
    if pairs.len() > 0 {
        let rest = pairs.drop_last();
        lemma_pairs_map_keys(rest, k);
        if pairs.last().0@ == k {
            assert(pairs[pairs.len() - 1].0@ == k);
        } else if exists|i: int| 0 <= i < rest.len() && (#[trigger] rest[i]).0@ == k {
            let i = choose|i: int| 0 <= i < rest.len() && (#[trigger] rest[i]).0@ == k;
            assert(pairs[i].0@ == k);
        } else if exists|i: int| 0 <= i < pairs.len() && (#[trigger] pairs[i]).0@ == k {
            let i = choose|i: int| 0 <= i < pairs.len() && (#[trigger] pairs[i]).0@ == k;
            assert(rest[i].0@ == k);
        }
    }
}

/// Where the keys are distinct, each pair is in the map.
pub proof fn lemma_pairs_map_at<K: View, V>(pairs: Seq<(K, V)>, i: int)
    requires
        distinct_keys(pairs),
        0 <= i < pairs.len(),
    ensures
        pairs_map(pairs).contains_key(pairs[i].0@),
        pairs_map(pairs)[pairs[i].0@] == pairs[i].1,
    decreases pairs.len(),
{
    if i < pairs.len() - 1 {
        let rest = pairs.drop_last();
        assert(rest[i] == pairs[i]);
        lemma_pairs_map_at(rest, i);
        assert(pairs[i].0@ != pairs[pairs.len() - 1].0@);
    }
}

/// Replacing the value of a pair inserts the new value.
proof fn lemma_pairs_map_update<K: View, V>(pairs: Seq<(K, V)>, i: int, k: K, v: V)
    requires
        distinct_keys(pairs),
        0 <= i < pairs.len(),
        pairs[i].0@ == k@,
    ensures
        distinct_keys(pairs.update(i, (k, v))),
        pairs_map(pairs.update(i, (k, v))) == pairs_map(pairs).insert(k@, v),
    decreases pairs.len(),
{
    let new = pairs.update(i, (k, v));
    let rest = pairs.drop_last();
    if i == pairs.len() - 1 {
        assert(new.drop_last() =~= rest);
        assert(pairs_map(new) =~= pairs_map(pairs).insert(k@, v));
    } else {
        lemma_pairs_map_update(rest, i, k, v);
        assert(new.drop_last() =~= rest.update(i, (k, v)));
        assert(pairs[i].0@ != pairs[pairs.len() - 1].0@);
        assert(pairs_map(new) =~= pairs_map(pairs).insert(k@, v));
    }
}

/// Taking a pair out removes its key.
proof fn lemma_pairs_map_remove<K: View, V>(pairs: Seq<(K, V)>, i: int)
    requires
        distinct_keys(pairs),
        0 <= i < pairs.len(),
    ensures
        distinct_keys(pairs.remove(i)),
        pairs_map(pairs.remove(i)) == pairs_map(pairs).remove(pairs[i].0@),
    decreases pairs.len(),
{
    let new = pairs.remove(i);
    let rest = pairs.drop_last();
    let k = pairs[i].0@;
    if i == pairs.len() - 1 {
        assert(new =~= rest);
        lemma_pairs_map_keys(rest, k);
        if pairs_map(rest).contains_key(k) {
            let j = choose|j: int| 0 <= j < rest.len() && (#[trigger] rest[j]).0@ == k;
            assert(pairs[j].0@ != pairs[i].0@);
        }
        assert(pairs_map(new) =~= pairs_map(pairs).remove(k));
    } else {
        lemma_pairs_map_remove(rest, i);
        assert(new.drop_last() =~= rest.remove(i));
        assert(new.last() == pairs.last());
        assert(pairs[i].0@ != pairs[pairs.len() - 1].0@);
        assert(pairs_map(new) =~= pairs_map(pairs).remove(k));
    }
}

/// A map from keys to values, in which no key occurs twice.
pub struct Table<K: Key, V> {
    entries: Vec<(K, V)>,
}

impl<K: Key, V> View for Table<K, V> {
    type V = Map<K::V, V>;

    closed spec fn view(&self) -> Map<K::V, V> {
        pairs_map(self.entries@)
    }
}

impl<K: Key, V> Table<K, V> {
    #[verifier::type_invariant]
    spec fn well_formed(self) -> bool {
        distinct_keys(self.entries@)
    }

    /// Makes a table without entries.
    pub fn new() -> (table: Self)
        ensures
            table@ == Map::<K::V, V>::empty(),
    {
        Table { entries: Vec::new() }
    }

    /// The place of a key in the list of entries.
    fn position(&self, key: &K) -> (place: Option<usize>)
        ensures
            match place {
                Some(i) => i < self.entries@.len() && self.entries@[i as int].0@ == key@,
                None => !self@.contains_key(key@),
            },
    {
        let mut i: usize = 0;
        while i < self.entries.len()
            invariant
                i <= self.entries@.len(),
                forall|j: int| 0 <= j < i ==> (#[trigger] self.entries@[j]).0@ != key@,
            decreases self.entries@.len() - i,
        {
            if self.entries[i].0.same(key) {
                return Some(i);
            }
            i = i + 1;
        }
        proof {
            lemma_pairs_map_keys(self.entries@, key@);
        }
        None
    }

    /// Looks up the value of a key.
    pub fn get(&self, key: &K) -> (value: Option<&V>)
        ensures
            match value {
                Some(v) => self@.contains_key(key@) && *v == self@[key@],
                None => !self@.contains_key(key@),
            },
    {
        proof {
            use_type_invariant(self);
        }
        match self.position(key) {
            Some(i) => {
                proof {
                    lemma_pairs_map_at(self.entries@, i as int);
                }
                Some(&self.entries[i].1)
            },
            None => None,
        }
    }

    /// Gives a key a value and returns the value that it had.
    pub fn insert(&mut self, key: K, value: V) -> (previous: Option<V>)
        ensures
            final(self)@ == old(self)@.insert(key@, value),
            match previous {
                Some(v) => old(self)@.contains_key(key@) && v == old(self)@[key@],
                None => !old(self)@.contains_key(key@),
            },
    {
        proof {
            use_type_invariant(&*self);
        }
        let place = self.position(&key);
        let mut entries: Vec<(K, V)> = Vec::new();
        std::mem::swap(&mut entries, &mut self.entries);
        let ghost before = entries@;
        match place {
            Some(i) => {
                proof {
                    lemma_pairs_map_at(before, i as int);
                    lemma_pairs_map_update(before, i as int, key, value);
                }
                let taken = entries.remove(i);
                entries.insert(i, (key, value));
                assert(entries@ =~= before.update(i as int, (key, value)));
                self.entries = entries;
                Some(taken.1)
            },
            None => {
                proof {
                    assert forall|j: int| 0 <= j < before.len() implies (#[trigger] before[j]).0@
                        != key@ by {
                        lemma_pairs_map_keys(before, key@);
                    }
                    assert(before.push((key, value)).drop_last() =~= before);
                }
                entries.push((key, value));
                self.entries = entries;
                None
            },
        }
    }

    /// Takes a key out and returns the value that it had.
    pub fn remove(&mut self, key: &K) -> (previous: Option<V>)
        ensures
            final(self)@ == old(self)@.remove(key@),
            match previous {
                Some(v) => old(self)@.contains_key(key@) && v == old(self)@[key@],
                None => !old(self)@.contains_key(key@),
            },
    {
        proof {
            use_type_invariant(&*self);
        }
        match self.position(key) {
            Some(i) => {
                let mut entries: Vec<(K, V)> = Vec::new();
                std::mem::swap(&mut entries, &mut self.entries);
                proof {
                    lemma_pairs_map_at(entries@, i as int);
                    lemma_pairs_map_remove(entries@, i as int);
                }
                let taken = entries.remove(i);
                self.entries = entries;
                Some(taken.1)
            },
            None => {
                assert(self@.remove(key@) =~= self@);
                None
            },
        }
    }

    /// Lists the entries.
    pub fn entries(&self) -> (list: &Vec<(K, V)>)
        ensures
            distinct_keys(list@),
            pairs_map(list@) == self@,
    {
        proof {
            use_type_invariant(self);
        }
        &self.entries
    }

    /// Hands the entries out.
    pub fn into_entries(self) -> (list: Vec<(K, V)>)
        ensures
            distinct_keys(list@),
            pairs_map(list@) == self@,
    {
        proof {
            use_type_invariant(&self);
        }
        self.entries
    }
}

/// Of the pairs with one key the last counts, and keys that no pair has are not in the map.
pub proof fn law_last_pair_counts<K: View, V>(pairs: Seq<(K, V)>, i: int, k: K::V)
    ensures
        pairs_map(pairs).contains_key(k) <==> exists|j: int|
            0 <= j < pairs.len() && (#[trigger] pairs[j]).0@ == k,
        0 <= i < pairs.len() && (forall|j: int|
            i < j < pairs.len() ==> (#[trigger] pairs[j]).0@ != pairs[i].0@)
            ==> pairs_map(pairs)[pairs[i].0@] == pairs[i].1,
    decreases pairs.len(),
{
    lemma_pairs_map_keys(pairs, k);
    if 0 <= i < pairs.len() - 1 && (forall|j: int|
        i < j < pairs.len() ==> (#[trigger] pairs[j]).0@ != pairs[i].0@) {
        let rest = pairs.drop_last();
        assert(rest[i] == pairs[i]);
        assert forall|j: int| i < j < rest.len() implies (#[trigger] rest[j]).0@ != rest[i].0@ by {
            assert(rest[j] == pairs[j]);
        }
        law_last_pair_counts(rest, i, k);
        assert(pairs[pairs.len() - 1].0@ != pairs[i].0@);
    }
}

} // verus!
