//! A table of values under text keys, in the order of the keys.
use crate::text::{
    comes_before, lemma_text_less_irreflexive, lemma_text_less_total, lemma_text_less_transitive,
    same_text, text_less,
};
use vstd::prelude::*;

verus! {

/// A value that can be copied without change.
pub trait Duplicate: View + Sized {
    /// Copies the value.
    fn duplicate(&self) -> (copy: Self)
        ensures
            copy@ == self@,
    ;
}

/// Whether texts stand in strictly increasing order.
pub open spec fn increasing(keys: Seq<Seq<char>>) -> bool {
    forall|i: int, j: int| 0 <= i < j < keys.len() ==> text_less(#[trigger] keys[i], #[trigger] keys[j])
}

/// The keys of a map in increasing order.
pub open spec fn sorted_keys<V>(map: Map<Seq<char>, V>) -> Seq<Seq<char>> {
    choose|keys: Seq<Seq<char>>| #[trigger] increasing(keys) && keys.to_set() == map.dom()
}

/// Two increasing lists of the same texts are equal.
pub proof fn lemma_increasing_unique(a: Seq<Seq<char>>, b: Seq<Seq<char>>)
    requires
        increasing(a),
        increasing(b),
        a.to_set() == b.to_set(),
    ensures
        a == b,
    decreases a.len(),
{
    if a.len() == 0 {
        if b.len() > 0 {
            assert(b.to_set().contains(b[0]));
            assert(a.contains(b[0]));
        }
        assert(a =~= b);
    } else {
        assert(a.to_set().contains(a.last()));
        assert(b.contains(a.last()));
        assert(b.to_set().contains(b.last()));
        assert(a.contains(b.last()));
        let i = choose|i: int| 0 <= i < b.len() && b[i] == a.last();
        let j = choose|j: int| 0 <= j < a.len() && a[j] == b.last();
        if a.last() != b.last() {
            assert(text_less(b[i], b[b.len() - 1]));
            assert(text_less(a[j], a[a.len() - 1]));
            lemma_text_less_transitive(a.last(), b.last(), a.last());
            lemma_text_less_irreflexive(a.last());
        }
        let x = a.drop_last();
        let y = b.drop_last();
        assert forall|key: Seq<char>| x.to_set().contains(key) == y.to_set().contains(key) by {
            if x.contains(key) {
                let k = choose|k: int| 0 <= k < x.len() && x[k] == key;
                assert(a[k] == key);
                assert(text_less(a[k], a[a.len() - 1]));
                lemma_text_less_irreflexive(key);
                assert(a.to_set().contains(key));
                assert(b.contains(key));
                let m = choose|m: int| 0 <= m < b.len() && b[m] == key;
                assert(y[m] == key);
            }
            if y.contains(key) {
                let k = choose|k: int| 0 <= k < y.len() && y[k] == key;
                assert(b[k] == key);
                assert(text_less(b[k], b[b.len() - 1]));
                lemma_text_less_irreflexive(key);
                assert(b.to_set().contains(key));
                assert(a.contains(key));
                let m = choose|m: int| 0 <= m < a.len() && a[m] == key;
                assert(x[m] == key);
            }
        }
        assert(x.to_set() =~= y.to_set());
        lemma_increasing_unique(x, y);
        assert(a =~= x.push(a.last()));
        assert(b =~= y.push(b.last()));
    }
}

/// A list of the keys of a map in increasing order is the sorted list.
pub proof fn lemma_sorted_keys<V>(map: Map<Seq<char>, V>, keys: Seq<Seq<char>>)
    requires
        increasing(keys),
        keys.to_set() == map.dom(),
    ensures
        sorted_keys(map) == keys,
{
    lemma_increasing_unique(sorted_keys(map), keys);
}

/// Of a list of keys, those of which a condition holds, in their order.
pub open spec fn chosen(keys: Seq<Seq<char>>, wanted: spec_fn(Seq<char>) -> bool) -> Seq<Seq<char>>
    decreases keys.len(),
{
    if keys.len() == 0 {
        Seq::empty()
    } else {
        let before = chosen(keys.drop_last(), wanted);
        if wanted(keys.last()) {
            before.push(keys.last())
        } else {
            before
        }
    }
}

/// A key is chosen when it is in the list and the condition holds of it.
pub proof fn lemma_chosen(keys: Seq<Seq<char>>, wanted: spec_fn(Seq<char>) -> bool, key: Seq<char>)
    ensures
        chosen(keys, wanted).contains(key) <==> keys.contains(key) && wanted(key),
    decreases keys.len(),
{
    if keys.len() > 0 {
        let rest = keys.drop_last();
        let before = chosen(rest, wanted);
        lemma_chosen(rest, wanted, key);
        if rest.contains(key) {
            let i = choose|i: int| 0 <= i < rest.len() && rest[i] == key;
            assert(keys[i] == key);
        }
        if keys.contains(key) {
            let i = choose|i: int| 0 <= i < keys.len() && keys[i] == key;
            if i < rest.len() {
                assert(rest[i] == key);
            }
        }
        assert(keys[keys.len() - 1] == keys.last());
        if wanted(keys.last()) {
            let all = before.push(keys.last());
            assert(all[all.len() - 1] == keys.last());
            if before.contains(key) {
                let i = choose|i: int| 0 <= i < before.len() && before[i] == key;
                assert(all[i] == key);
            }
            if all.contains(key) {
                let i = choose|i: int| 0 <= i < all.len() && all[i] == key;
                if i < before.len() {
                    assert(before[i] == key);
                }
            }
        }
    }
}

/// Values under text keys.
#[derive(Debug)]
pub struct Table<V> {
    entries: Vec<(String, V)>,
}

/// The keys of a list of entries.
spec fn entry_keys<V>(entries: Seq<(String, V)>) -> Seq<Seq<char>> {
    Seq::new(entries.len(), |i: int| entries[i].0@)
}

/// Whether a list of entries has a key.
spec fn has_key<V>(entries: Seq<(String, V)>, key: Seq<char>) -> bool {
    exists|i: int| 0 <= i < entries.len() && (#[trigger] entries[i]).0@ == key
}

/// The position of a key in a list of entries.
spec fn key_at<V>(entries: Seq<(String, V)>, key: Seq<char>) -> int {
    choose|i: int| 0 <= i < entries.len() && (#[trigger] entries[i]).0@ == key
}

spec fn entries_map<V: View>(entries: Seq<(String, V)>) -> Map<Seq<char>, V::V> {
    Map::new(
        |key: Seq<char>| has_key(entries, key),
        |key: Seq<char>| entries[key_at(entries, key)].1@,
    )
}

impl<V: View> View for Table<V> {
    type V = Map<Seq<char>, V::V>;

    closed spec fn view(&self) -> Map<Seq<char>, V::V> {
        entries_map(self.entries@)
    }
}

proof fn lemma_key_at<V>(entries: Seq<(String, V)>, i: int)
    requires
        increasing(entry_keys(entries)),
        0 <= i < entries.len(),
    ensures
        has_key(entries, entries[i].0@),
        key_at(entries, entries[i].0@) == i,
{
    let key = entries[i].0@;
    assert(entries[i].0@ == key);
    let k = key_at(entries, key);
    let keys = entry_keys(entries);
    assert(keys[k] == keys[i]);
    if k != i {
        lemma_text_less_irreflexive(key);
        if k < i {
            assert(text_less(keys[k], keys[i]));
        } else {
            assert(text_less(keys[i], keys[k]));
        }
    }
}

impl<V> Table<V> {
    #[verifier::type_invariant]
    spec fn in_order(self) -> bool {
        increasing(entry_keys(self.entries@))
    }
}

impl<V: View> Table<V> {
    /// The table without entries.
    pub fn new() -> (table: Self)
        ensures
            table@ == Map::<Seq<char>, V::V>::empty(),
    {
        let table: Table<V> = Table { entries: Vec::new() };
        assert(table@ =~= Map::<Seq<char>, V::V>::empty());
        table
    }

    fn find(&self, key: &str) -> (at: Option<usize>)
        ensures
            match at {
                Some(i) => i < self.entries@.len() && self.entries@[i as int].0@ == key@
                    && self@.contains_key(key@) && self@[key@] == self.entries@[i as int].1@,
                None => !self@.contains_key(key@),
            },
    {
        proof {
            use_type_invariant(self);
        }
        let mut i: usize = 0;
        while i < self.entries.len()
            invariant
                i <= self.entries@.len(),
                increasing(entry_keys(self.entries@)),
                forall|j: int| 0 <= j < i ==> self.entries@[j].0@ != key@,
            decreases self.entries.len() - i,
        {
            if same_text(self.entries[i].0.as_str(), key) {
                proof {
                    lemma_key_at(self.entries@, i as int);
                }
                return Some(i);
            }
            i += 1;
        }
        None
    }

    /// The value under a key.
    pub fn get(&self, key: &str) -> (value: Option<&V>)
        ensures
            match value {
                Some(value) => self@.contains_key(key@) && self@[key@] == value@,
                None => !self@.contains_key(key@),
            },
    {
        match self.find(key) {
            Some(i) => Some(&self.entries[i].1),
            None => None,
        }
    }

    /// Whether there is a value under a key.
    pub fn contains_key(&self, key: &str) -> (found: bool)
        ensures
            found == self@.contains_key(key@),
    {
        self.find(key).is_some()
    }

    /// Whether the table has no entries.
    pub fn is_empty(&self) -> (empty: bool)
        ensures
            empty == (self@ == Map::<Seq<char>, V::V>::empty()),
    {
        proof {
            if self.entries@.len() == 0 {
                assert(self@ =~= Map::<Seq<char>, V::V>::empty());
            } else {
                assert(has_key(self.entries@, self.entries@[0].0@));
                assert(self@.contains_key(self.entries@[0].0@));
            }
        }
        self.entries.len() == 0
    }

    /// The number of entries.
    pub fn len(&self) -> (len: usize)
        ensures
            len == sorted_keys(self@).len(),
            increasing(sorted_keys(self@)),
            sorted_keys(self@).to_set() == self@.dom(),
    {
        proof {
            use_type_invariant(self);
            lemma_entry_keys(self.entries@);
        }
        self.entries.len()
    }

    /// The key at a position, in the order of the keys.
    pub fn key(&self, at: usize) -> (key: &str)
        requires
            at < sorted_keys(self@).len(),
        ensures
            key@ == sorted_keys(self@)[at as int],
    {
        proof {
            use_type_invariant(self);
            lemma_entry_keys(self.entries@);
        }
        self.entries[at].0.as_str()
    }

    /// The value at a position, in the order of the keys.
    pub fn value(&self, at: usize) -> (value: &V)
        requires
            at < sorted_keys(self@).len(),
        ensures
            self@.contains_key(sorted_keys(self@)[at as int]),
            value@ == self@[sorted_keys(self@)[at as int]],
    {
        proof {
            use_type_invariant(self);
            lemma_entry_keys(self.entries@);
            lemma_key_at(self.entries@, at as int);
        }
        &self.entries[at].1
    }

    /// Puts a value under a key and gives the value that it replaces.
    pub fn insert(&mut self, key: &str, value: V) -> (previous: Option<V>)
        ensures
            final(self)@ == old(self)@.insert(key@, value@),
            match previous {
                Some(previous) => old(self)@.contains_key(key@) && old(self)@[key@] == previous@,
                None => !old(self)@.contains_key(key@),
            },
    {
        let previous = self.remove(key);
        let ghost base = self@;
        proof {
            use_type_invariant(&*self);
        }
        let mut entries: Vec<(String, V)> = Vec::new();
        std::mem::swap(&mut entries, &mut self.entries);
        let ghost before = entries@;
        let mut at: usize = 0;
        while at < entries.len() && comes_before(entries[at].0.as_str(), key)
            invariant
                at <= entries@.len(),
                entries@ == before,
                forall|j: int| 0 <= j < at ==> text_less((#[trigger] entries@[j]).0@, key@),
            decreases entries.len() - at,
        {
            at += 1;
        }
        let name = key.to_string();
        let ghost entry = (name, value);
        proof {
            assert(entries_map(before) == base);
            assert(!base.contains_key(key@));
            lemma_insert_sorted(before, at as int, entry);
        }
        entries.insert(at, (name, value));
        self.entries = entries;
        assert(self@ =~= old(self)@.insert(key@, value@));
        previous
    }

    /// Takes the value under a key out.
    pub fn remove(&mut self, key: &str) -> (removed: Option<V>)
        ensures
            final(self)@ == old(self)@.remove(key@),
            match removed {
                Some(removed) => old(self)@.contains_key(key@) && old(self)@[key@] == removed@,
                None => !old(self)@.contains_key(key@),
            },
    {
        match self.find(key) {
            Some(i) => {
                proof {
                    use_type_invariant(&*self);
                }
                let mut entries: Vec<(String, V)> = Vec::new();
                std::mem::swap(&mut entries, &mut self.entries);
                proof {
                    lemma_remove_sorted(entries@, i as int);
                }
                let (_, value) = entries.remove(i);
                self.entries = entries;
                Some(value)
            },
            None => {
                assert(self@ =~= self@.remove(key@));
                None
            },
        }
    }
}

proof fn lemma_entry_keys<V: View>(entries: Seq<(String, V)>)
    requires
        increasing(entry_keys(entries)),
    ensures
        sorted_keys(entries_map(entries)) == entry_keys(entries),
        entry_keys(entries).to_set() == entries_map(entries).dom(),
{
    let keys = entry_keys(entries);
    let map = entries_map(entries);
    assert forall|key: Seq<char>| keys.to_set().contains(key) == map.dom().contains(key) by {
        if keys.contains(key) {
            let i = choose|i: int| 0 <= i < keys.len() && keys[i] == key;
            assert(entries[i].0@ == key);
        }
        if has_key(entries, key) {
            let i = key_at(entries, key);
            assert(keys[i] == key);
        }
    }
    assert(keys.to_set() =~= map.dom());
    lemma_sorted_keys(map, keys);
}

proof fn lemma_insert_sorted<V: View>(entries: Seq<(String, V)>, at: int, entry: (String, V))
    requires
        increasing(entry_keys(entries)),
        !has_key(entries, entry.0@),
        0 <= at <= entries.len(),
        forall|j: int| 0 <= j < at ==> text_less((#[trigger] entries[j]).0@, entry.0@),
        at < entries.len() ==> !text_less(entries[at].0@, entry.0@),
    ensures
        increasing(entry_keys(entries.insert(at, entry))),
        entries_map(entries.insert(at, entry)) == entries_map(entries).insert(entry.0@, entry.1@),
{
    let after = entries.insert(at, entry);
    let keys = entry_keys(entries);
    let new_keys = entry_keys(after);
    let key = entry.0@;
    if at < entries.len() {
        lemma_text_less_total(key, entries[at].0@);
    }
    assert forall|j: int| at <= j < entries.len() implies text_less(key, #[trigger] keys[j]) by {
        if at < j {
            assert(text_less(keys[at], keys[j]));
            lemma_text_less_transitive(key, keys[at], keys[j]);
        }
    }
    assert forall|i: int, j: int| 0 <= i < j < new_keys.len() implies text_less(
        #[trigger] new_keys[i],
        #[trigger] new_keys[j],
    ) by {
        if i < at {
            assert(new_keys[i] == keys[i]);
            if j < at {
                assert(new_keys[j] == keys[j]);
            } else if j == at {
                assert(text_less(entries[i].0@, key));
            } else {
                assert(new_keys[j] == keys[j - 1]);
            }
        } else {
            assert(new_keys[j] == keys[j - 1]);
            if i > at {
                assert(new_keys[i] == keys[i - 1]);
            }
        }
    }
    let map = entries_map(entries);
    let new_map = entries_map(after);
    assert(after[at] == entry);
    lemma_key_at(after, at);
    assert forall|k: Seq<char>| new_map.dom().contains(k) == map.insert(key, entry.1@).dom().contains(
        k,
    ) by {
        if has_key(entries, k) {
            let i = key_at(entries, k);
            let m = if i < at {
                i
            } else {
                i + 1
            };
            assert(after[m] == entries[i]);
        }
        if has_key(after, k) && k != key {
            let m = key_at(after, k);
            let i = if m < at {
                m
            } else {
                m - 1
            };
            assert(entries[i] == after[m]);
        }
    }
    assert forall|k: Seq<char>| #[trigger]
        new_map.dom().contains(k) implies new_map[k] == map.insert(key, entry.1@)[k] by {
        if k != key {
            let i = key_at(entries, k);
            assert(has_key(entries, k));
            let m = if i < at {
                i
            } else {
                i + 1
            };
            assert(after[m] == entries[i]);
            lemma_key_at(after, m);
        }
    }
    assert(new_map =~= map.insert(key, entry.1@));
}

proof fn lemma_remove_sorted<V: View>(entries: Seq<(String, V)>, at: int)
    requires
        increasing(entry_keys(entries)),
        0 <= at < entries.len(),
    ensures
        increasing(entry_keys(entries.remove(at))),
        entries_map(entries.remove(at)) == entries_map(entries).remove(entries[at].0@),
{
    let after = entries.remove(at);
    let keys = entry_keys(entries);
    let new_keys = entry_keys(after);
    let key = entries[at].0@;
    assert forall|i: int, j: int| 0 <= i < j < new_keys.len() implies text_less(
        #[trigger] new_keys[i],
        #[trigger] new_keys[j],
    ) by {
        let i2 = if i < at {
            i
        } else {
            i + 1
        };
        let j2 = if j < at {
            j
        } else {
            j + 1
        };
        assert(new_keys[i] == keys[i2]);
        assert(new_keys[j] == keys[j2]);
    }
    let map = entries_map(entries);
    let new_map = entries_map(after);
    lemma_key_at(entries, at);
    assert forall|k: Seq<char>|
        #![trigger new_map.dom().contains(k)]
        new_map.dom().contains(k) == map.remove(key).dom().contains(k) by {
        if has_key(entries, k) && k != key {
            let i = key_at(entries, k);
            let m = if i < at {
                i
            } else {
                i - 1
            };
            assert(after[m] == entries[i]);
        }
        if has_key(after, k) {
            let m = key_at(after, k);
            let i = if m < at {
                m
            } else {
                m + 1
            };
            assert(entries[i] == after[m]);
            lemma_key_at(entries, i);
        }
    }
    assert forall|k: Seq<char>| #[trigger]
        new_map.dom().contains(k) implies new_map[k] == map.remove(key)[k] by {
        let m = key_at(after, k);
        let i = if m < at {
            m
        } else {
            m + 1
        };
        assert(entries[i] == after[m]);
        lemma_key_at(entries, i);
    }
    assert(new_map =~= map.remove(key));
}

impl<V: Duplicate> Table<V> {
    /// Puts copies of all entries of another table into this one.
    pub fn extend(&mut self, other: &Table<V>)
        ensures
            final(self)@ == old(self)@.union_prefer_right(other@),
    {
        let ghost before = self@;
        let ghost keys = sorted_keys(other@);
        let len = other.len();
        let mut i: usize = 0;
        while i < len
            invariant
                i <= len,
                keys == sorted_keys(other@),
                len == keys.len(),
                keys.to_set() == other@.dom(),
                forall|key: Seq<char>| #[trigger]
                    self@.dom().contains(key) <==> before.dom().contains(key) || keys.take(
                        i as int,
                    ).contains(key),
                forall|key: Seq<char>| #[trigger]
                    self@.dom().contains(key) ==> self@[key] == if keys.take(i as int).contains(
                        key,
                    ) {
                        other@[key]
                    } else {
                        before[key]
                    },
            decreases len - i,
        {
            proof {
                lemma_take_contains(keys, i as int);
            }
            self.insert(other.key(i), other.value(i).duplicate());
            i += 1;
        }
        proof {
            assert(keys.take(i as int) =~= keys);
            assert forall|key: Seq<char>| keys.contains(key) == other@.dom().contains(key) by {
                assert(keys.to_set().contains(key) == keys.contains(key));
            }
            assert(self@ =~= before.union_prefer_right(other@));
        }
    }
}

/// The first entries of a list with one more hold that one too.
pub proof fn lemma_take_contains(keys: Seq<Seq<char>>, at: int)
    requires
        0 <= at < keys.len(),
    ensures
        forall|key: Seq<char>| #[trigger]
            keys.take(at + 1).contains(key) <==> keys.take(at).contains(key) || key == keys[at],
{
    let now = keys.take(at);
    let next = keys.take(at + 1);
    assert forall|key: Seq<char>| #[trigger] next.contains(key) <==> now.contains(key) || key
        == keys[at] by {
        if now.contains(key) {
            let j = choose|j: int| 0 <= j < now.len() && now[j] == key;
            assert(next[j] == key);
        }
        assert(next[at] == keys[at]);
        if next.contains(key) {
            let j = choose|j: int| 0 <= j < next.len() && next[j] == key;
            if j < at {
                assert(now[j] == key);
            }
        }
    }
}

impl<V: Duplicate> Duplicate for Table<V> {
    fn duplicate(&self) -> (copy: Self) {
        proof {
            use_type_invariant(self);
        }
        let mut entries: Vec<(String, V)> = Vec::new();
        let mut i: usize = 0;
        while i < self.entries.len()
            invariant
                i <= self.entries@.len(),
                entries@.len() == i,
                forall|j: int|
                    0 <= j < i ==> (#[trigger] entries@[j]).0@ == self.entries@[j].0@
                        && entries@[j].1@ == self.entries@[j].1@,
            decreases self.entries.len() - i,
        {
            entries.push((self.entries[i].0.clone(), self.entries[i].1.duplicate()));
            i += 1;
        }
        let ghost copied = entries@;
        proof {
            assert(entry_keys(entries@) =~= entry_keys(self.entries@));
            lemma_same_entries(entries@, self.entries@);
        }
        Table { entries }
    }
}

proof fn lemma_same_entries<V: View>(a: Seq<(String, V)>, b: Seq<(String, V)>)
    requires
        increasing(entry_keys(a)),
        increasing(entry_keys(b)),
        a.len() == b.len(),
        forall|j: int|
            0 <= j < a.len() ==> (#[trigger] a[j]).0@ == b[j].0@ && a[j].1@ == b[j].1@,
    ensures
        entries_map(a) == entries_map(b),
{
    let x = entries_map(a);
    let y = entries_map(b);
    assert forall|k: Seq<char>| x.dom().contains(k) == y.dom().contains(k) by {
        if has_key(a, k) {
            let i = key_at(a, k);
            assert(b[i].0@ == a[i].0@);
        }
        if has_key(b, k) {
            let i = key_at(b, k);
            assert(a[i].0@ == b[i].0@);
        }
    }
    assert forall|k: Seq<char>| #[trigger] x.dom().contains(k) implies x[k] == y[k] by {
        let i = key_at(a, k);
        assert(a[i].0@ == b[i].0@);
        lemma_key_at(a, i);
        lemma_key_at(b, i);
    }
    assert(x =~= y);
}

} // verus!
