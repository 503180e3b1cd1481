//! Resource tags: a mapping from string keys to string values that keeps
//! its entries in the order in which their keys were first inserted.

use vstd::prelude::*;

verus! {

/// Whether some entry of `entries` has the key `key`.
pub open spec fn has_key<V>(entries: Seq<(Seq<char>, V)>, key: Seq<char>) -> bool {
    exists|i: int| 0 <= i < entries.len() && (#[trigger] entries[i]).0 == key
}

/// The position of an entry of `entries` with the key `key`.
pub open spec fn index_of_key<V>(entries: Seq<(Seq<char>, V)>, key: Seq<char>) -> int {
    choose|i: int| 0 <= i < entries.len() && (#[trigger] entries[i]).0 == key
}

/// Whether no key occurs in two entries.
pub open spec fn distinct_keys<V>(entries: Seq<(Seq<char>, V)>) -> bool {
    forall|i: int, j: int|
        0 <= i < j < entries.len() ==> (#[trigger] entries[i]).0 != (#[trigger] entries[j]).0
}

/// The entries after `key` was set to `value`: an entry with that key keeps
/// its place and takes the new value, a new key goes to the end.
pub open spec fn inserted<V>(entries: Seq<(Seq<char>, V)>, key: Seq<char>, value: V) -> Seq<
    (Seq<char>, V),
> {
    if has_key(entries, key) {
        entries.update(index_of_key(entries, key), (key, value))
    } else {
        entries.push((key, value))
    }
}

/// The entries after each pair of `pairs` was inserted in turn.
pub open spec fn inserted_all<V>(entries: Seq<(Seq<char>, V)>, pairs: Seq<(Seq<char>, V)>) -> Seq<
    (Seq<char>, V),
>
    decreases pairs.len(),
{
    if pairs.len() == 0 {
        entries
    } else {
        inserted(inserted_all(entries, pairs.drop_last()), pairs.last().0, pairs.last().1)
    }
}

/// Entries with distinct keys, inserted one after the other into an empty
/// list, give the same entries in the same order.
pub proof fn lemma_inserted_distinct<V>(entries: Seq<(Seq<char>, V)>)
    requires
        distinct_keys(entries),
    ensures
        inserted_all(Seq::empty(), entries) == entries,
    decreases entries.len(),
{
    if entries.len() > 0 {
        let front = entries.drop_last();
        assert(distinct_keys(front)) by {
            assert forall|i: int, j: int| 0 <= i < j < front.len() implies (#[trigger] front[i]).0
                != (#[trigger] front[j]).0 by {
                assert(front[i] == entries[i] && front[j] == entries[j]);
            }
        }
        lemma_inserted_distinct(front);
        assert(!has_key(front, entries.last().0)) by {
            if has_key(front, entries.last().0) {
                let i = index_of_key(front, entries.last().0);
                assert(front[i] == entries[i]);
                assert(entries[i].0 != entries[entries.len() - 1].0);
            }
        }
        assert(front.push((entries.last().0, entries.last().1)) =~= entries);
    }
}

/// The values of a list of pairs of strings.
pub open spec fn pairs_view(pairs: Seq<(String, String)>) -> Seq<(Seq<char>, Seq<char>)> {
    Seq::new(pairs.len(), |i: int| (pairs[i].0@, pairs[i].1@))
}

/// The tags of a resource.
#[derive(Debug, PartialEq, Eq)]
pub struct Tags {
    entries: Vec<(String, String)>,
}

impl View for Tags {
    type V = Seq<(Seq<char>, Seq<char>)>;

    closed spec fn view(&self) -> Seq<(Seq<char>, Seq<char>)> {
        pairs_view(self.entries@)
    }
}

impl Tags {
    /// No key occurs in two tags. This holds of every tag map.
    #[verifier::type_invariant]
    pub open spec fn keys_are_distinct(self) -> bool {
        distinct_keys(self@)
    }

    /// No tags.
    pub fn new() -> (tags: Tags)
        ensures
            tags@ == Seq::<(Seq<char>, Seq<char>)>::empty(),
    {
        let tags = Tags { entries: Vec::new() };
        assert(tags@ =~= Seq::empty());
        tags
    }

    /// The tags made by inserting each pair of `pairs` in turn, so that of
    /// two pairs with one key the later one gives the value.
    pub fn from_pairs(pairs: Vec<(String, String)>) -> (tags: Tags)
        ensures
            tags@ == inserted_all(Seq::empty(), pairs_view(pairs@)),
            distinct_keys(tags@),
    {
        let mut tags = Tags::new();
        let ghost all = pairs_view(pairs@);
        for pair in iter: pairs
            invariant
                iter.seq() == pairs@,
                all == pairs_view(pairs@),
                tags@ == inserted_all(Seq::empty(), all.take(iter.index() as int)),
                distinct_keys(tags@),
        {
            let ghost k = iter.index() as int;
            proof {
                assert(all.take(k + 1).drop_last() =~= all.take(k));
                assert(all.take(k + 1).last() == (pair.0@, pair.1@));
            }
            let _ = tags.insert(pair.0, pair.1);
        }
        assert(all.take(all.len() as int) =~= all);
        tags
    }

    /// The number of tags.
    pub fn len(&self) -> (n: usize)
        ensures
            n == self@.len(),
    {
        self.entries.len()
    }

    /// Whether there is no tag.
    pub fn is_empty(&self) -> (empty: bool)
        ensures
            empty == (self@.len() == 0),
    {
        self.entries.len() == 0
    }

    /// The key and the value of the tag at position `index`.
    pub fn entry(&self, index: usize) -> (pair: (&String, &String))
        requires
            index < self@.len(),
        ensures
            pair.0@ == self@[index as int].0,
            pair.1@ == self@[index as int].1,
    {
        (&self.entries[index].0, &self.entries[index].1)
    }

    /// The value of the tag `key`, if there is such a tag.
    pub fn get(&self, key: &str) -> (value: Option<&String>)
        ensures
            value is Some <==> has_key(self@, key@),
            value is Some ==> value->Some_0@ == self@[index_of_key(self@, key@)].1,
    {
        proof {
            use_type_invariant(self);
        }
        let wanted = String::from_str(key);
        let mut i: usize = 0;
        while i < self.entries.len()
            invariant
                i <= self.entries@.len(),
                wanted@ == key@,
                distinct_keys(self@),
                forall|k: int| 0 <= k < i ==> (#[trigger] self@[k]).0 != key@,
            decreases self.entries@.len() - i,
        {
            if self.entries[i].0 == wanted {
                proof {
                    assert(self@[i as int].0 == key@);
                    assert(has_key(self@, key@));
                    let j = index_of_key(self@, key@);
                    assert(0 <= j < self@.len() && self@[j].0 == key@);
                    assert(j == i as int);
                }
                return Some(&self.entries[i].1);
            }
            i += 1;
        }
        None
    }

    /// Sets the tag `key` to `value` and returns the value it had before,
    /// if it had one.
    pub fn insert(&mut self, key: String, value: String) -> (previous: Option<String>)
        ensures
            final(self)@ == inserted(old(self)@, key@, value@),
            distinct_keys(final(self)@),
            match previous {
                Some(v) => has_key(old(self)@, key@) && v@ == old(self)@[index_of_key(
                    old(self)@,
                    key@,
                )].1,
                None => !has_key(old(self)@, key@),
            },
    {
        proof {
            use_type_invariant(&*self);
        }
        let ghost before = self@;
        let mut taken = Tags::new();
        core::mem::swap(self, &mut taken);
        let mut entries = taken.entries;
        let mut previous: Option<String> = None;
        let mut i: usize = 0;
        while i < entries.len()
            invariant
                i <= entries@.len(),
                pairs_view(entries@) == before,
                before == old(self)@,
                distinct_keys(before),
                forall|k: int| 0 <= k < i ==> (#[trigger] before[k]).0 != key@,
            decreases entries@.len() - i,
        {
            if entries[i].0 == key {
                proof {
                    assert(before[i as int].0 == key@);
                    assert(has_key(before, key@));
                    let j = index_of_key(before, key@);
                    assert(0 <= j < before.len() && before[j].0 == key@);
                    assert(j == i as int);
                }
                let ghost found = entries@[i as int];
                entries.push((key, value));
                let old_pair = entries.swap_remove(i);
                assert(old_pair == found);
                assert(old_pair.1@ == before[i as int].1);
                assert(pairs_view(entries@) =~= before.update(i as int, (key@, value@)));
                *self = Tags { entries };
                return Some(old_pair.1);
            }
            i += 1;
        }
        entries.push((key, value));
        assert(pairs_view(entries@) =~= before.push((key@, value@)));
        *self = Tags { entries };
        None
    }
}

impl Clone for Tags {
    /// A copy with the same tags in the same order.
    fn clone(&self) -> (copy: Tags)
        ensures
            copy@ == self@,
    {
        proof {
            use_type_invariant(self);
        }
        let mut entries: Vec<(String, String)> = Vec::new();
        let mut i: usize = 0;
        while i < self.entries.len()
            invariant
                i <= self.entries@.len(),
                entries@.len() == i,
                forall|k: int| 0 <= k < i ==> (#[trigger] entries@[k]) == self.entries@[k],
            decreases self.entries@.len() - i,
        {
            entries.push((self.entries[i].0.clone(), self.entries[i].1.clone()));
            i += 1;
        }
        assert(pairs_view(entries@) =~= self@);
        Tags { entries }
    }
}

} // verus!
