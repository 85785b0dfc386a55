//! A small map keyed by text that remembers the order in which its keys
//! first arrived.

use vstd::prelude::*;
use vstd::string::StringExecFns;
use crate::text::text_eq;

verus! {

/// Whether no key occurs twice in a listing of entries.
pub open spec fn keys_distinct<T>(listing: Seq<(Seq<char>, T)>) -> bool {
    forall|i: int, j: int|
        0 <= i < j < listing.len() ==> (#[trigger] listing[i]).0 != (#[trigger] listing[j]).0
}

/// Whether some entry of the listing has the key.
pub open spec fn has_key<T>(listing: Seq<(Seq<char>, T)>, key: Seq<char>) -> bool {
    exists|i: int| 0 <= i < listing.len() && (#[trigger] listing[i]).0 == key
}

/// The mapping that a listing of entries stands for; a later entry for a
/// key replaces an earlier one.
pub open spec fn listing_map<T>(listing: Seq<(Seq<char>, T)>) -> Map<Seq<char>, T>
    decreases listing.len(),
{
    if listing.len() == 0 {
        Map::empty()
    } else {
        listing_map(listing.drop_last()).insert(listing.last().0, listing.last().1)
    }
}

/// The domain of a listing's mapping is the set of its keys.
pub proof fn lemma_listing_map_dom<T>(listing: Seq<(Seq<char>, T)>, key: Seq<char>)
    ensures
        listing_map(listing).dom().contains(key) <==> has_key(listing, key),
    decreases listing.len(),
{
    if listing.len() > 0 {
        let front = listing.drop_last();
        lemma_listing_map_dom(front, key);
        if has_key(front, key) {
            let i = choose|i: int| 0 <= i < front.len() && (#[trigger] front[i]).0 == key;
            assert(listing[i].0 == key);
        }
        if listing.last().0 == key {
            assert(listing[listing.len() - 1].0 == key);
        }
        if has_key(listing, key) {
            let i = choose|i: int| 0 <= i < listing.len() && (#[trigger] listing[i]).0 == key;
            if i < front.len() {
                assert(front[i].0 == key);
            }
        }
    }
}

/// With distinct keys, each entry's value is the one its key maps to.
pub proof fn lemma_listing_map_value<T>(listing: Seq<(Seq<char>, T)>, i: int)
    requires
        keys_distinct(listing),
        0 <= i < listing.len(),
    ensures
        listing_map(listing).dom().contains(listing[i].0),
        listing_map(listing)[listing[i].0] == listing[i].1,
    decreases listing.len(),
{
    let front = listing.drop_last();
    if i < listing.len() - 1 {
        assert(keys_distinct(front)) by {
            assert forall|a: int, b: int| 0 <= a < b < front.len() implies (#[trigger] front[a]).0
                != (#[trigger] front[b]).0 by {
                assert(listing[a].0 != listing[b].0);
            }
        }
        lemma_listing_map_value(front, i);
        assert(listing[i].0 != listing[listing.len() - 1].0);
        assert(front[i] == listing[i]);
    }
}

/// With distinct keys, the mapping has as many keys as the listing has
/// entries.
pub proof fn lemma_listing_map_len<T>(listing: Seq<(Seq<char>, T)>)
    requires
        keys_distinct(listing),
    ensures
        listing_map(listing).dom().finite(),
        listing_map(listing).dom().len() == listing.len(),
    decreases listing.len(),
{
    if listing.len() > 0 {
        let front = listing.drop_last();
        assert(keys_distinct(front)) by {
            assert forall|a: int, b: int| 0 <= a < b < front.len() implies (#[trigger] front[a]).0
                != (#[trigger] front[b]).0 by {
                assert(listing[a].0 != listing[b].0);
            }
        }
        lemma_listing_map_len(front);
        lemma_listing_map_dom(front, listing.last().0);
        if has_key(front, listing.last().0) {
            let i = choose|i: int|
                0 <= i < front.len() && (#[trigger] front[i]).0 == listing.last().0;
            assert(listing[i].0 != listing[listing.len() - 1].0);
        }
        assert(listing_map(listing).dom() =~= listing_map(front).dom().insert(listing.last().0));
    }
}

/// Replacing the value of an entry is an insertion into the mapping.
pub proof fn lemma_listing_map_update<T>(listing: Seq<(Seq<char>, T)>, i: int, value: T)
    requires
        keys_distinct(listing),
        0 <= i < listing.len(),
    ensures
        keys_distinct(listing.update(i, (listing[i].0, value))),
        listing_map(listing.update(i, (listing[i].0, value))) == listing_map(listing).insert(
            listing[i].0,
            value,
        ),
    decreases listing.len(),
{
    let key = listing[i].0;
    let changed = listing.update(i, (key, value));
    assert(keys_distinct(changed)) by {
        assert forall|a: int, b: int| 0 <= a < b < changed.len() implies (#[trigger] changed[a]).0
            != (#[trigger] changed[b]).0 by {
            assert(listing[a].0 != listing[b].0);
        }
    }
    let front = listing.drop_last();
    if i == listing.len() - 1 {
        assert(changed.drop_last() =~= front);
        assert(listing_map(changed) =~= listing_map(listing).insert(key, value));
    } else {
        assert(keys_distinct(front)) by {
            assert forall|a: int, b: int| 0 <= a < b < front.len() implies (#[trigger] front[a]).0
                != (#[trigger] front[b]).0 by {
                assert(listing[a].0 != listing[b].0);
            }
        }
        lemma_listing_map_update(front, i, value);
        assert(changed.drop_last() =~= front.update(i, (key, value)));
        assert(changed.last() == listing.last());
        assert(listing[i].0 != listing[listing.len() - 1].0);
        assert(listing_map(changed) =~= listing_map(listing).insert(key, value));
    }
}

/// The first place at which the listing has the key, if any.
pub open spec fn position_of<T>(listing: Seq<(Seq<char>, T)>, key: Seq<char>) -> Option<int>
    decreases listing.len(),
{
    if listing.len() == 0 {
        None
    } else {
        match position_of(listing.drop_last(), key) {
            Some(i) => Some(i),
            None => if listing.last().0 == key {
                Some(listing.len() - 1)
            } else {
                None
            },
        }
    }
}

/// The listing after `value` is stored under `key`: in place where the key
/// is present, at the end where it is new.
pub open spec fn put<T>(listing: Seq<(Seq<char>, T)>, key: Seq<char>, value: T) -> Seq<
    (Seq<char>, T),
> {
    match position_of(listing, key) {
        Some(i) => listing.update(i, (key, value)),
        None => listing.push((key, value)),
    }
}

/// A listing without the key has no place for it.
pub proof fn lemma_position_absent<T>(listing: Seq<(Seq<char>, T)>, key: Seq<char>)
    requires
        !has_key(listing, key),
    ensures
        position_of(listing, key) is None,
    decreases listing.len(),
{
    if listing.len() > 0 {
        let front = listing.drop_last();
        assert(!has_key(front, key)) by {
            if has_key(front, key) {
                let i = choose|i: int| 0 <= i < front.len() && (#[trigger] front[i]).0 == key;
                assert(listing[i].0 == key);
            }
        }
        lemma_position_absent(front, key);
        assert(listing[listing.len() - 1].0 != key);
    }
}

/// With distinct keys, the place of a key is the one entry that has it.
pub proof fn lemma_position_of<T>(listing: Seq<(Seq<char>, T)>, key: Seq<char>, i: int)
    requires
        keys_distinct(listing),
        0 <= i < listing.len(),
        listing[i].0 == key,
    ensures
        position_of(listing, key) == Some(i),
    decreases listing.len(),
{
    let front = listing.drop_last();
    if i == listing.len() - 1 {
        assert(!has_key(front, key)) by {
            if has_key(front, key) {
                let j = choose|j: int| 0 <= j < front.len() && (#[trigger] front[j]).0 == key;
                assert(listing[j].0 != listing[i].0);
            }
        }
        lemma_position_absent(front, key);
    } else {
        assert(keys_distinct(front)) by {
            assert forall|a: int, b: int| 0 <= a < b < front.len() implies (#[trigger] front[a]).0
                != (#[trigger] front[b]).0 by {
                assert(listing[a].0 != listing[b].0);
            }
        }
        assert(front[i] == listing[i]);
        lemma_position_of(front, key, i);
    }
}

/// A map from text keys to values. Keys are kept in the order in which
/// they were first inserted, and no key is held twice.
#[derive(Debug)]
pub struct StringMap<V: View> {
    entries: Vec<(String, V)>,
}

impl<V: View> StringMap<V> {
    /// The entries as `(key, value)` pairs of views, in the order in which
    /// the map hands them out.
    pub closed spec fn listing(&self) -> Seq<(Seq<char>, V::V)> {
        Self::listing_of(self.entries@)
    }

    spec fn listing_of(entries: Seq<(String, V)>) -> Seq<(Seq<char>, V::V)> {
        Seq::new(entries.len(), |i: int| (entries[i].0@, entries[i].1@))
    }

    #[verifier::type_invariant]
    spec fn well_formed(&self) -> bool {
        keys_distinct(self.listing())
    }

    /// An empty map.
    pub fn new() -> (map: Self)
        ensures
            map.listing() == Seq::<(Seq<char>, V::V)>::empty(),
            map@ == Map::<Seq<char>, V::V>::empty(),
    {
        let map = StringMap { entries: Vec::new() };
        assert(map.listing() =~= Seq::<(Seq<char>, V::V)>::empty());
        map
    }

    /// The number of keys.
    pub fn len(&self) -> (n: usize)
        ensures
            n == self.listing().len(),
            n == self@.dom().len(),
            self@.dom().finite(),
    {
        proof {
            use_type_invariant(self);
            lemma_listing_map_len(self.listing());
        }
        self.entries.len()
    }

    /// Whether the map holds no key.
    pub fn is_empty(&self) -> (empty: bool)
        ensures
            empty == (self.listing().len() == 0),
    {
        self.entries.len() == 0
    }

    /// The place of `key` in the listing, if the map holds it.
    pub fn position(&self, key: &str) -> (found: Option<usize>)
        ensures
            keys_distinct(self.listing()),
            match found {
                Some(i) => i < self.listing().len() && self.listing()[i as int].0 == key@,
                None => !has_key(self.listing(), key@),
            },
    {
        proof {
            use_type_invariant(self);
        }
        let mut i: usize = 0;
        while i < self.entries.len()
            invariant
                i <= self.entries.len(),
                keys_distinct(self.listing()),
                forall|j: int| 0 <= j < i ==> (#[trigger] self.listing()[j]).0 != key@,
            decreases self.entries.len() - i,
        {
            if text_eq(self.entries[i].0.as_str(), key) {
                return Some(i);
            }
            i += 1;
        }
        None
    }

    /// Whether the map holds `key`.
    pub fn contains_key(&self, key: &str) -> (held: bool)
        ensures
            held == self@.dom().contains(key@),
    {
        proof {
            lemma_listing_map_dom(self.listing(), key@);
        }
        let found = self.position(key);
        proof {
            if let Some(i) = found {
                assert(self.listing()[i as int].0 == key@);
            }
        }
        found.is_some()
    }

    /// The value stored under `key`.
    pub fn get(&self, key: &str) -> (value: Option<&V>)
        ensures
            match value {
                Some(v) => self@.dom().contains(key@) && self@[key@] == v@,
                None => !self@.dom().contains(key@),
            },
    {
        proof {
            lemma_listing_map_dom(self.listing(), key@);
        }
        match self.position(key) {
            Some(i) => {
                proof {
                    lemma_listing_map_value(self.listing(), i as int);
                }
                Some(&self.entries[i].1)
            },
            None => None,
        }
    }

    /// The key at place `i` of the listing.
    pub fn key_at(&self, i: usize) -> (key: &String)
        requires
            i < self.listing().len(),
        ensures
            key@ == self.listing()[i as int].0,
    {
        &self.entries[i].0
    }

    /// The value at place `i` of the listing.
    pub fn value_at(&self, i: usize) -> (value: &V)
        requires
            i < self.listing().len(),
        ensures
            value@ == self.listing()[i as int].1,
    {
        &self.entries[i].1
    }

    /// Stores `value` under `key`. A key that the map already holds keeps
    /// its place and gets the new value; a new key goes to the end.
    pub fn insert(&mut self, key: String, value: V)
        ensures
            final(self)@ == old(self)@.insert(key@, value@),
            final(self).listing() == put(old(self).listing(), key@, value@),
    {
        proof {
            use_type_invariant(&*self);
            lemma_listing_map_dom(self.listing(), key@);
        }
        let ghost before = self.listing();
        match self.position(key.as_str()) {
            Some(i) => {
                proof {
                    lemma_listing_map_update(before, i as int, value@);
                    lemma_position_of(before, key@, i as int);
                }
                let mut entries = Vec::new();
                std::mem::swap(&mut entries, &mut self.entries);
                entries.set(i, (key, value));
                assert(Self::listing_of(entries@) =~= before.update(i as int, (key@, value@)));
                self.entries = entries;
            },
            None => {
                proof {
                    lemma_position_absent(before, key@);
                }
                let mut entries = Vec::new();
                std::mem::swap(&mut entries, &mut self.entries);
                entries.push((key, value));
                let ghost after = Self::listing_of(entries@);
                assert(after =~= before.push((key@, value@)));
                assert(after.drop_last() =~= before);
                assert(keys_distinct(after)) by {
                    assert forall|a: int, b: int| 0 <= a < b < after.len() implies (
                    #[trigger] after[a]).0 != (#[trigger] after[b]).0 by {
                        if b < before.len() {
                            assert(before[a].0 != before[b].0);
                        } else {
                            assert(before[a].0 != key@);
                        }
                    }
                }
                self.entries = entries;
            },
        }
    }
}

/// The views of a list of pairs of texts.
pub open spec fn text_pairs(pairs: Seq<(String, String)>) -> Seq<(Seq<char>, Seq<char>)> {
    Seq::new(pairs.len(), |i: int| (pairs[i].0@, pairs[i].1@))
}

/// The listing that results when the pairs are stored one after another.
pub open spec fn stored<T>(pairs: Seq<(Seq<char>, T)>) -> Seq<(Seq<char>, T)>
    decreases pairs.len(),
{
    if pairs.len() == 0 {
        Seq::empty()
    } else {
        put(stored(pairs.drop_last()), pairs.last().0, pairs.last().1)
    }
}

impl StringMap<String> {
    /// A map with the same entries in the same order.
    pub fn duplicate(&self) -> (copy: Self)
        ensures
            copy.listing() == self.listing(),
            copy@ == self@,
    {
        proof {
            use_type_invariant(self);
        }
        let mut entries: Vec<(String, String)> = Vec::new();
        let mut i: usize = 0;
        while i < self.entries.len()
            invariant
                i <= self.entries.len(),
                entries@.len() == i,
                forall|j: int|
                    0 <= j < i ==> (#[trigger] entries@[j]).0@ == self.entries@[j].0@
                        && entries@[j].1@ == self.entries@[j].1@,
            decreases self.entries.len() - i,
        {
            let key = self.entries[i].0.clone();
            let value = self.entries[i].1.clone();
            entries.push((key, value));
            i += 1;
        }
        assert(Self::listing_of(entries@) =~= self.listing());
        StringMap { entries }
    }

    /// The map that results when the pairs are stored one after another.
    pub fn from_pairs(pairs: &Vec<(String, String)>) -> (map: Self)
        ensures
            map.listing() == stored(text_pairs(pairs@)),
    {
        let mut map: StringMap<String> = StringMap::new();
        let mut i: usize = 0;
        assert(text_pairs(pairs@).take(0) =~= Seq::empty());
        while i < pairs.len()
            invariant
                i <= pairs.len(),
                map.listing() == stored(text_pairs(pairs@).take(i as int)),
            decreases pairs.len() - i,
        {
            proof {
                let all = text_pairs(pairs@);
                assert(all.take(i + 1).drop_last() =~= all.take(i as int));
                assert(all.take(i + 1).last() == all[i as int]);
            }
            map.insert(pairs[i].0.clone(), pairs[i].1.clone());
            i += 1;
        }
        assert(text_pairs(pairs@).take(pairs.len() as int) =~= text_pairs(pairs@));
        map
    }
}

/// The count that a table of counts holds for a key: zero where it holds
/// none.
pub open spec fn count_at(counts: Map<Seq<char>, usize>, key: Seq<char>) -> nat {
    if counts.dom().contains(key) {
        counts[key] as nat
    } else {
        0
    }
}

impl StringMap<usize> {
    /// Counts one more under `key`: a key that is new gets the count one.
    pub fn increment(&mut self, key: &str)
        requires
            count_at(old(self)@, key@) < usize::MAX,
        ensures
            final(self)@ == old(self)@.insert(key@, (count_at(old(self)@, key@) + 1) as usize),
            final(self).listing() == put(
                old(self).listing(),
                key@,
                (count_at(old(self)@, key@) + 1) as usize,
            ),
    {
        let seen: usize = match self.get(key) {
            Some(count) => *count,
            None => 0,
        };
        self.insert(String::from_str(key), seen + 1);
    }
}

impl<V: View + Clone> Clone for StringMap<V> {
    /// A map with the same keys in the same order, each with a clone of
    /// its value.
    fn clone(&self) -> (copy: Self)
        ensures
            copy.listing().len() == self.listing().len(),
            forall|i: int|
                0 <= i < self.listing().len() ==> (#[trigger] copy.listing()[i]).0
                    == self.listing()[i].0,
    {
        proof {
            use_type_invariant(self);
        }
        let mut entries: Vec<(String, V)> = Vec::new();
        let mut i: usize = 0;
        while i < self.entries.len()
            invariant
                i <= self.entries.len(),
                entries@.len() == i,
                forall|j: int| 0 <= j < i ==> (#[trigger] entries@[j]).0@ == self.entries@[j].0@,
            decreases self.entries.len() - i,
        {
            let key = self.entries[i].0.clone();
            let value = self.entries[i].1.clone();
            entries.push((key, value));
            i += 1;
        }
        proof {
            let copied = Self::listing_of(entries@);
            assert forall|a: int, b: int| 0 <= a < b < copied.len() implies (#[trigger] copied[a]).0
                != (#[trigger] copied[b]).0 by {
                assert(entries@[a].0@ == self.entries@[a].0@);
                assert(entries@[b].0@ == self.entries@[b].0@);
                assert(self.listing()[a].0 != self.listing()[b].0);
            }
        }
        StringMap { entries }
    }
}

impl<V: View> View for StringMap<V> {
    type V = Map<Seq<char>, V::V>;

    open spec fn view(&self) -> Map<Seq<char>, V::V> {
        listing_map(self.listing())
    }
}

} // verus!
