//! A cache of texts whose entries may expire.
//!
//! Time is a count of ticks on a clock of the caller's choice; the cache is
//! told the time with every call and never reads a clock itself.
use vstd::hash_map::StringHashMap;
use vstd::prelude::*;

verus! {

/// A cached value and the last tick at which it is still valid, if it
/// expires at all.
#[derive(Debug)]
pub struct CacheEntry {
    pub value: String,
    pub expiration: Option<u64>,
}

impl CacheEntry {
    /// Whether the entry has expired at the time `now`: it has an expiration
    /// and `now` lies behind it.
    pub open spec fn expired(&self, now: u64) -> bool {
        match self.expiration {
            Some(expiration) => now > expiration,
            None => false,
        }
    }
}

/// When an entry set at `now` with the time to live `ttl` expires. A sum
/// beyond the last tick of the clock is that last tick, which no time lies
/// behind.
pub open spec fn expiration_of(ttl: Option<u64>, now: u64) -> Option<u64> {
    match ttl {
        Some(ttl) => Some(if now + ttl > u64::MAX { u64::MAX } else { (now + ttl) as u64 }),
        None => None,
    }
}

/// The cache.
pub struct Cache {
    store: StringHashMap<CacheEntry>,
}

impl Cache {
    /// The entries by key, expired ones included until they are looked up.
    pub closed spec fn entries(&self) -> Map<Seq<char>, CacheEntry> {
        self.store@
    }

    /// An empty cache.
    pub fn new() -> (cache: Self)
        ensures
            cache.entries() == Map::<Seq<char>, CacheEntry>::empty(),
    {
        Cache { store: StringHashMap::new() }
    }

    /// Stores `value` under `key` at the time `now`, in place of what was
    /// there. With a time to live the entry expires `ttl` ticks after `now`;
    /// without one it stays.
    pub fn set(&mut self, key: String, value: String, ttl: Option<u64>, now: u64)
        ensures
            final(self).entries() == old(self).entries().insert(
                key@,
                CacheEntry { value, expiration: expiration_of(ttl, now) },
            ),
    {
        let expiration = match ttl {
            Some(ttl) => Some(now.saturating_add(ttl)),
            None => None,
        };
        let entry = CacheEntry { value, expiration };
        self.store.insert(key, entry);
    }

    /// Looks `key` up at the time `now`. A live entry gives its value and
    /// stays; an expired entry gives `None` and is dropped; an unknown key
    /// gives `None`.
    pub fn get(&mut self, key: &str, now: u64) -> (value: Option<String>)
        ensures
            !old(self).entries().contains_key(key@) ==> value is None && final(self).entries() == old(
                self,
            ).entries(),
            old(self).entries().contains_key(key@) && old(self).entries()[key@].expired(now) ==> value is None
                && final(self).entries() == old(self).entries().remove(key@),
            old(self).entries().contains_key(key@) && !old(self).entries()[key@].expired(now) ==> value
                == Some(old(self).entries()[key@].value) && final(self).entries() == old(self).entries(),
    {
        let found: Option<Option<String>> = match self.store.get(key) {
            Some(entry) => {
                let dead = match entry.expiration {
                    Some(expiration) => now > expiration,
                    None => false,
                };
                if dead {
                    Some(None)
                } else {
                    Some(Some(entry.value.clone()))
                }
            },
            None => None,
        };
        match found {
            Some(Some(value)) => Some(value),
            Some(None) => {
                self.store.remove(key);
                None
            },
            None => None,
        }
    }
}

} // verus!
