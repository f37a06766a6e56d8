//! A small map from texts to texts that keeps the order in which its keys
//! were first inserted.
//!
//! No key occurs twice: the type keeps that as its invariant, and every
//! function that hands a map out states it.
use crate::text::pairs;
use vstd::prelude::*;

verus! {

/// Whether `key` is among the keys of `entries`.
pub open spec fn has_key(entries: Seq<(Seq<char>, Seq<char>)>, key: Seq<char>) -> bool {
    exists|i: int| 0 <= i < entries.len() && (#[trigger] entries[i]).0 == key
}

/// Whether no key occurs twice in `entries`.
pub open spec fn distinct_keys(entries: Seq<(Seq<char>, Seq<char>)>) -> bool {
    forall|i: int, j: int|
        0 <= i < j < entries.len() ==> (#[trigger] entries[i]).0 != (#[trigger] entries[j]).0
}

/// A place where `key` stands in `entries`; the only one where its keys are
/// distinct. `key` is among them.
pub open spec fn index_of(entries: Seq<(Seq<char>, Seq<char>)>, key: Seq<char>) -> int {
    choose|i: int| 0 <= i < entries.len() && (#[trigger] entries[i]).0 == key
}

/// `entries` with `value` under `key`: in the place of the value that `key`
/// had, or at the end under a new key.
pub open spec fn inserted(
    entries: Seq<(Seq<char>, Seq<char>)>,
    key: Seq<char>,
    value: Seq<char>,
) -> Seq<(Seq<char>, Seq<char>)> {
    if has_key(entries, key) {
        entries.update(index_of(entries, key), (key, value))
    } else {
        entries.push((key, value))
    }
}

/// Texts by key, in the order in which the keys were first inserted.
#[derive(Debug)]
pub struct TextMap {
    entries: Vec<(String, String)>,
}

impl View for TextMap {
    type V = Seq<(Seq<char>, Seq<char>)>;

    closed spec fn view(&self) -> Seq<(Seq<char>, Seq<char>)> {
        pairs(self.entries@)
    }
}

impl TextMap {
    #[verifier::type_invariant]
    spec fn keys_are_distinct(self) -> bool {
        distinct_keys(pairs(self.entries@))
    }

    /// An empty map.
    pub fn new() -> (map: Self)
        ensures
            map@ == Seq::<(Seq<char>, Seq<char>)>::empty(),
            distinct_keys(map@),
    {
        let entries: Vec<(String, String)> = Vec::new();
        proof {
            assert(pairs(entries@) =~= Seq::<(Seq<char>, Seq<char>)>::empty());
        }
        TextMap { entries }
    }

    /// The place of `key` among the entries, or their number if it is not
    /// among them.
    fn find(&self, key: &str) -> (place: usize)
        ensures
            place <= self@.len(),
            place < self@.len() ==> self@[place as int].0 == key@ && has_key(self@, key@) && index_of(
                self@,
                key@,
            ) == place,
            place == self@.len() ==> !has_key(self@, key@),
            distinct_keys(self@),
    {
        proof {
            use_type_invariant(self);
        }
        let wanted = key.to_string();
        let mut i: usize = 0;
        while i < self.entries.len()
            invariant
                i <= self.entries.len(),
                wanted@ == key@,
                distinct_keys(pairs(self.entries@)),
                forall|j: int| 0 <= j < i ==> (#[trigger] pairs(self.entries@)[j]).0 != key@,
            decreases self.entries.len() - i,
        {
            if self.entries[i].0 == wanted {
                proof {
                    let entries = pairs(self.entries@);
                    assert(entries[i as int].0 == key@);
                    let chosen = index_of(entries, key@);
                    assert(entries[chosen].0 == key@);
                    if chosen < i {
                        assert(entries[chosen].0 != entries[i as int].0);
                    }
                    if i < chosen {
                        assert(entries[i as int].0 != entries[chosen].0);
                    }
                }
                return i;
            }
            i = i + 1;
        }
        i
    }

    /// Puts `value` under `key`. The value that `key` had is replaced where
    /// it stands; a new key goes to the end.
    pub fn insert(&mut self, key: &str, value: &str)
        ensures
            final(self)@ == inserted(old(self)@, key@, value@),
            distinct_keys(final(self)@),
    {
        let place = self.find(key);
        let ghost before = pairs(self.entries@);
        let ghost target = inserted(before, key@, value@);
        let mut rebuilt: Vec<(String, String)> = Vec::new();
        let mut i: usize = 0;
        proof {
            assert(pairs(rebuilt@) =~= target.take(0));
        }
        while i < self.entries.len()
            invariant
                i <= self.entries.len(),
                before == pairs(self.entries@),
                place <= before.len(),
                target.len() >= before.len(),
                place < before.len() ==> target == before.update(place as int, (key@, value@)),
                place == before.len() ==> target == before.push((key@, value@)),
                pairs(rebuilt@) == target.take(i as int),
            decreases self.entries.len() - i,
        {
            let ghost so_far = pairs(rebuilt@);
            if i == place {
                rebuilt.push((key.to_string(), value.to_string()));
                proof {
                    assert(pairs(rebuilt@) =~= so_far.push((key@, value@)));
                }
            } else {
                rebuilt.push((self.entries[i].0.clone(), self.entries[i].1.clone()));
                proof {
                    assert(pairs(rebuilt@) =~= so_far.push(before[i as int]));
                }
            }
            proof {
                assert(pairs(rebuilt@) =~= target.take(i + 1));
            }
            i = i + 1;
        }
        if place == self.entries.len() {
            let ghost so_far = pairs(rebuilt@);
            rebuilt.push((key.to_string(), value.to_string()));
            proof {
                assert(pairs(rebuilt@) =~= so_far.push((key@, value@)));
            }
        }
        proof {
            let after = pairs(rebuilt@);
            assert(after =~= target);
            assert forall|a: int, b: int| 0 <= a < b < after.len() implies (#[trigger] after[a]).0 != (
            #[trigger] after[b]).0 by {
                if b < before.len() {
                    assert(before[a].0 != before[b].0);
                } else {
                    assert(before[a].0 != key@);
                }
            }
        }
        self.entries = rebuilt;
    }

    /// The value under `key`, or `None` if `key` is not in the map.
    pub fn get(&self, key: &str) -> (value: Option<&String>)
        ensures
            has_key(self@, key@) ==> value is Some && value->0@ == self@[index_of(self@, key@)].1,
            !has_key(self@, key@) ==> value is None,
    {
        let place = self.find(key);
        if place < self.entries.len() {
            Some(&self.entries[place].1)
        } else {
            None
        }
    }

    /// Whether `key` is in the map.
    pub fn contains_key(&self, key: &str) -> (found: bool)
        ensures
            found == has_key(self@, key@),
    {
        self.find(key) < self.entries.len()
    }

    /// How many keys the map holds.
    pub fn len(&self) -> (n: usize)
        ensures
            n == self@.len(),
    {
        self.entries.len()
    }

    /// The entries, each a key with its value, in the order of the keys.
    pub fn entries(&self) -> (entries: &Vec<(String, String)>)
        ensures
            pairs(entries@) == self@,
            distinct_keys(self@),
    {
        proof {
            use_type_invariant(self);
        }
        &self.entries
    }

    /// A copy of the map.
    pub fn copy(&self) -> (map: Self)
        ensures
            map@ == self@,
            distinct_keys(map@),
    {
        proof {
            use_type_invariant(self);
        }
        let mut entries: Vec<(String, String)> = Vec::new();
        let mut i: usize = 0;
        while i < self.entries.len()
            invariant
                i <= self.entries.len(),
                entries@ == self.entries@.take(i as int),
            decreases self.entries.len() - i,
        {
            entries.push((self.entries[i].0.clone(), self.entries[i].1.clone()));
            proof {
                assert(entries@ =~= self.entries@.take(i + 1));
            }
            i = i + 1;
        }
        proof {
            assert(self.entries@.take(i as int) =~= self.entries@);
        }
        TextMap { entries }
    }
}

} // verus!
