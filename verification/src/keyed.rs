//! A mapping from text keys to values, kept as a list of pairs in which no
//! key occurs twice. A later value for a key replaces the earlier one.

use vstd::prelude::*;
use vstd::string::StringExecFns;

verus! {

/// No key occurs twice in the list.
pub open spec fn keys_distinct<V>(pairs: Seq<(String, V)>) -> bool {
    forall|i: int, j: int|
        0 <= i < j < pairs.len() ==> (#[trigger] pairs[i]).0@ != (#[trigger] pairs[j]).0@
}

/// Some pair of the list has this key.
pub open spec fn has_key<V>(pairs: Seq<(String, V)>, key: Seq<char>) -> bool {
    exists|i: int| 0 <= i < pairs.len() && (#[trigger] pairs[i]).0@ == key
}

/// A place in the list at which the key stands.
pub open spec fn position_of<V>(pairs: Seq<(String, V)>, key: Seq<char>) -> int {
    choose|i: int| 0 <= i < pairs.len() && (#[trigger] pairs[i]).0@ == key
}

/// The mapping that a list of pairs with distinct keys stands for.
pub open spec fn map_of<V>(pairs: Seq<(String, V)>) -> Map<Seq<char>, V> {
    Map::new(
        |key: Seq<char>| has_key(pairs, key),
        |key: Seq<char>| pairs[position_of(pairs, key)].1,
    )
}

/// The list in which the key has this value: the pair stands in the place of
/// the pair that had the key, if there was one, and else at the end.
pub open spec fn pairs_with<V>(pairs: Seq<(String, V)>, key: String, value: V) -> Seq<
    (String, V),
> {
    if has_key(pairs, key@) {
        pairs.update(position_of(pairs, key@), (key, value))
    } else {
        pairs.push((key, value))
    }
}

/// A pair of the list is found under its key in the mapping.
pub proof fn lemma_map_of_pair<V>(pairs: Seq<(String, V)>, i: int)
    requires
        keys_distinct(pairs),
        0 <= i < pairs.len(),
    ensures
        map_of(pairs).contains_key(pairs[i].0@),
        map_of(pairs)[pairs[i].0@] == pairs[i].1,
{
    let key = pairs[i].0@;
    assert(has_key(pairs, key));
    let p = position_of(pairs, key);
    assert(p == i) by {
        if p < i {
            assert(pairs[p].0@ != pairs[i].0@);
        } else if i < p {
            assert(pairs[i].0@ != pairs[p].0@);
        }
    }
}

/// A pair with a new key, put at the end, adds that key to the mapping.
pub proof fn lemma_map_of_push<V>(pairs: Seq<(String, V)>, key: String, value: V)
    requires
        keys_distinct(pairs),
        !has_key(pairs, key@),
    ensures
        keys_distinct(pairs.push((key, value))),
        map_of(pairs.push((key, value))) == map_of(pairs).insert(key@, value),
{
    let grown = pairs.push((key, value));
    assert(keys_distinct(grown)) by {
        assert forall|i: int, j: int| 0 <= i < j < grown.len() implies (#[trigger] grown[i]).0@
            != (#[trigger] grown[j]).0@ by {
            if j < pairs.len() {
                assert(pairs[i].0@ != pairs[j].0@);
            } else {
                assert(grown[i] == pairs[i]);
            }
        }
    }
    assert forall|k: Seq<char>| #[trigger]
        map_of(grown).contains_key(k) == map_of(pairs).insert(key@, value).contains_key(k) by {
        if has_key(grown, k) {
            let p = position_of(grown, k);
            if p < pairs.len() {
                assert(pairs[p].0@ == k);
            }
        }
        if has_key(pairs, k) {
            let p = position_of(pairs, k);
            assert(grown[p].0@ == k);
        }
        if k == key@ {
            assert(grown[pairs.len() as int].0@ == k);
        }
    }
    assert forall|k: Seq<char>| #[trigger] map_of(grown).contains_key(k) implies map_of(grown)[k]
        == map_of(pairs).insert(key@, value)[k] by {
        let p = position_of(grown, k);
        lemma_map_of_pair(grown, p);
        if p < pairs.len() {
            lemma_map_of_pair(pairs, p);
        }
    }
    assert(map_of(grown) =~= map_of(pairs).insert(key@, value));
}

/// A pair put in the place of the pair with the same key replaces the value
/// that the mapping has for that key.
pub proof fn lemma_map_of_update<V>(pairs: Seq<(String, V)>, i: int, key: String, value: V)
    requires
        keys_distinct(pairs),
        0 <= i < pairs.len(),
        pairs[i].0@ == key@,
    ensures
        keys_distinct(pairs.update(i, (key, value))),
        map_of(pairs.update(i, (key, value))) == map_of(pairs).insert(key@, value),
{
    let changed = pairs.update(i, (key, value));
    assert(keys_distinct(changed)) by {
        assert forall|a: int, b: int| 0 <= a < b < changed.len() implies (#[trigger] changed[a]).0@
            != (#[trigger] changed[b]).0@ by {
            assert(pairs[a].0@ != pairs[b].0@);
        }
    }
    assert forall|k: Seq<char>| #[trigger]
        map_of(changed).contains_key(k) == map_of(pairs).insert(key@, value).contains_key(k) by {
        if has_key(changed, k) {
            let p = position_of(changed, k);
            assert(pairs[p].0@ == k);
        }
        if has_key(pairs, k) {
            let p = position_of(pairs, k);
            assert(changed[p].0@ == k);
        }
        if k == key@ {
            assert(changed[i].0@ == k);
        }
    }
    assert forall|k: Seq<char>| #[trigger] map_of(changed).contains_key(k) implies map_of(
        changed,
    )[k] == map_of(pairs).insert(key@, value)[k] by {
        let p = position_of(changed, k);
        lemma_map_of_pair(changed, p);
        if p != i {
            lemma_map_of_pair(pairs, p);
        }
    }
    assert(map_of(changed) =~= map_of(pairs).insert(key@, value));
}

/// The mapping of the first pairs of a list, with the next pair put in, is
/// the mapping of the pairs up to and with that one.
pub proof fn lemma_map_of_take<V>(pairs: Seq<(String, V)>, i: int)
    requires
        keys_distinct(pairs),
        0 <= i < pairs.len(),
    ensures
        map_of(pairs.take(i + 1)) == map_of(pairs.take(i)).insert(pairs[i].0@, pairs[i].1),
{
    let first = pairs.take(i);
    assert(keys_distinct(first)) by {
        assert forall|a: int, b: int| 0 <= a < b < first.len() implies (#[trigger] first[a]).0@
            != (#[trigger] first[b]).0@ by {
            assert(pairs[a].0@ != pairs[b].0@);
        }
    }
    assert(!has_key(first, pairs[i].0@)) by {
        if has_key(first, pairs[i].0@) {
            let a = choose|a: int| 0 <= a < first.len() && (#[trigger] first[a]).0@ == pairs[i].0@;
            assert(pairs[a].0@ != pairs[i].0@);
        }
    }
    lemma_map_of_push(first, pairs[i].0, pairs[i].1);
    assert(pairs.take(i + 1) =~= first.push((pairs[i].0, pairs[i].1)));
}

/// A list of pairs with distinct keys stands for a mapping with as many keys
/// as the list has pairs.
pub proof fn lemma_map_of_len<V>(pairs: Seq<(String, V)>)
    requires
        keys_distinct(pairs),
    ensures
        map_of(pairs).dom().finite(),
        map_of(pairs).dom().len() == pairs.len(),
    decreases pairs.len(),
{
    if pairs.len() == 0 {
        assert(map_of(pairs).dom() =~= Set::<Seq<char>>::empty());
    } else {
        let earlier = pairs.drop_last();
        let last = pairs.last();
        assert(keys_distinct(earlier)) by {
            assert forall|i: int, j: int| 0 <= i < j < earlier.len() implies (
            #[trigger] earlier[i]).0@ != (#[trigger] earlier[j]).0@ by {
                assert(pairs[i].0@ != pairs[j].0@);
            }
        }
        assert(!has_key(earlier, last.0@)) by {
            if has_key(earlier, last.0@) {
                let i = choose|i: int|
                    0 <= i < earlier.len() && (#[trigger] earlier[i]).0@ == last.0@;
                assert(pairs[i].0@ != pairs[pairs.len() - 1].0@);
            }
        }
        lemma_map_of_len(earlier);
        lemma_map_of_push(earlier, last.0, last.1);
        assert(earlier.push((last.0, last.1)) =~= pairs);
        assert(map_of(pairs).dom() =~= map_of(earlier).dom().insert(last.0@));
        assert(!map_of(earlier).dom().contains(last.0@));
    }
}

/// A mapping from text keys to values.
#[derive(Debug)]
pub struct KeyedList<V> {
    entries: Vec<(String, V)>,
}

impl<V> KeyedList<V> {
    #[verifier::type_invariant]
    spec fn well_formed(&self) -> bool {
        keys_distinct(self.entries@)
    }

    /// The pairs of the mapping, in the order in which their keys first came.
    pub closed spec fn pairs(&self) -> Seq<(String, V)> {
        self.entries@
    }

    /// The mapping itself.
    pub open spec fn map(&self) -> Map<Seq<char>, V> {
        map_of(self.pairs())
    }

    /// The mapping without any key.
    pub fn new() -> (list: Self)
        ensures
            list.pairs() == Seq::<(String, V)>::empty(),
            list.map() == Map::<Seq<char>, V>::empty(),
    {
        let list = KeyedList { entries: Vec::new() };
        assert(list.map() =~= Map::<Seq<char>, V>::empty());
        list
    }

    /// The mapping in which the key has this value, and every other key the
    /// value it had.
    pub fn with(self, key: String, value: V) -> (list: Self)
        ensures
            list.map() == self.map().insert(key@, value),
            list.pairs() == pairs_with(self.pairs(), key, value),
    {
        proof {
            use_type_invariant(&self);
        }
        let mut entries = self.entries;
        let mut i: usize = 0;
        while i < entries.len()
            invariant
                i <= entries@.len(),
                entries@ == self.entries@,
                keys_distinct(entries@),
                forall|j: int| 0 <= j < i ==> (#[trigger] entries@[j]).0@ != key@,
            decreases entries@.len() - i,
        {
            if entries[i].0 == key {
                proof {
                    lemma_map_of_update(entries@, i as int, key, value);
                    let p = position_of(entries@, key@);
                    if p < i {
                        assert(entries@[p].0@ != entries@[i as int].0@);
                    } else if i < p {
                        assert(entries@[i as int].0@ != entries@[p].0@);
                    }
                }
                entries[i] = (key, value);
                return KeyedList { entries };
            }
            i += 1;
        }
        proof {
            lemma_map_of_push(entries@, key, value);
        }
        entries.push((key, value));
        KeyedList { entries }
    }

    /// Gives the key this value, in place of the value it had, if any.
    pub fn insert(&mut self, key: String, value: V)
        ensures
            final(self).map() == old(self).map().insert(key@, value),
            final(self).pairs() == pairs_with(old(self).pairs(), key, value),
    {
        let mut taken = KeyedList::new();
        core::mem::swap(self, &mut taken);
        *self = taken.with(key, value);
    }

    /// The value that the key has, if it has one.
    pub fn get(&self, key: &str) -> (found: Option<&V>)
        ensures
            found is Some <==> self.map().contains_key(key@),
            found matches Some(value) ==> self.map()[key@] == *value,
    {
        proof {
            use_type_invariant(self);
        }
        let wanted = String::from_str(key);
        let mut i: usize = 0;
        while i < self.entries.len()
            invariant
                i <= self.entries@.len(),
                wanted@ == key@,
                keys_distinct(self.entries@),
                forall|j: int| 0 <= j < i ==> (#[trigger] self.entries@[j]).0@ != key@,
            decreases self.entries@.len() - i,
        {
            if self.entries[i].0 == wanted {
                proof {
                    lemma_map_of_pair(self.entries@, i as int);
                }
                return Some(&self.entries[i].1);
            }
            i += 1;
        }
        None
    }

    /// The number of keys.
    pub fn len(&self) -> (count: usize)
        ensures
            count == self.pairs().len(),
            self.map().dom().finite(),
            count == self.map().dom().len(),
    {
        proof {
            use_type_invariant(self);
            lemma_map_of_len(self.entries@);
        }
        self.entries.len()
    }

    /// Whether the mapping has no key.
    pub fn is_empty(&self) -> (empty: bool)
        ensures
            empty == (self.map() == Map::<Seq<char>, V>::empty()),
            empty == (self.pairs().len() == 0),
    {
        let empty = self.entries.len() == 0;
        proof {
            use_type_invariant(self);
            if empty {
                assert(self.map() =~= Map::<Seq<char>, V>::empty());
            } else {
                lemma_map_of_pair(self.entries@, 0);
            }
        }
        empty
    }

    /// The pairs of the mapping: each key once, with its value.
    pub fn as_slice(&self) -> (pairs: &[(String, V)])
        ensures
            pairs@ == self.pairs(),
            keys_distinct(pairs@),
    {
        proof {
            use_type_invariant(self);
        }
        self.entries.as_slice()
    }
}

} // verus!
