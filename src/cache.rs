//! A time-bounded cache of option lists. An entry is visible only while
//! `now - timestamp < ttl`; expired entries are treated as absent and are
//! never evicted actively.
use vstd::prelude::*;
use crate::assoc::{find_key, keys_unique, lemma_map_of_at, lemma_map_of_has, lemma_map_of_update, map_of};

verus! {

/// One cached list: the options, the moment they were captured (in
/// milliseconds) and how long they stay valid (in seconds).
pub struct CachedOptions {
    pub options: Vec<String>,
    pub timestamp_ms: u64,
    pub ttl_secs: u64,
}

/// Time elapsed from `then` to `now`, zero when the clock reads earlier.
pub open spec fn elapsed_ms(then: u64, now: u64) -> int {
    if now >= then {
        now - then
    } else {
        0
    }
}

/// Whether an entry captured at `then` with the given TTL is still visible at
/// `now`.
pub open spec fn is_live(then: u64, ttl_secs: u64, now: u64) -> bool {
    elapsed_ms(then, now) < ttl_secs * 1000
}

pub open spec fn entry_live(e: CachedOptions, now: u64) -> bool {
    is_live(e.timestamp_ms, e.ttl_secs, now)
}

/// Relies on `std::time::SystemTime::elapsed` from the Unix epoch: the wall
/// clock in milliseconds, 0 when the clock reads before the epoch. Nothing is
/// promised of the value.
#[verifier::external_body]
fn now_millis() -> (r: u64) {
    match std::time::UNIX_EPOCH.elapsed() {
        Ok(d) => d.as_millis() as u64,
        Err(_) => 0,
    }
}

pub struct OptionCache {
    cache: Vec<(String, CachedOptions)>,
}

impl Default for OptionCache {
    fn default() -> (r: OptionCache)
        ensures
            r.wf(),
            r@ == Map::<Seq<char>, CachedOptions>::empty(),
    {
        OptionCache::new()
    }
}

impl View for OptionCache {
    type V = Map<Seq<char>, CachedOptions>;

    closed spec fn view(&self) -> Map<Seq<char>, CachedOptions> {
        map_of(self.cache@)
    }
}

impl OptionCache {
    pub closed spec fn wf(&self) -> bool {
        keys_unique(self.cache@)
    }

    /// The options that a reader sees for `key` at `now`.
    pub open spec fn visible(&self, key: Seq<char>, now: u64) -> Option<Seq<String>> {
        if self@.contains_key(key) && entry_live(self@[key], now) {
            Some(self@[key].options@)
        } else {
            None
        }
    }

    pub fn new() -> (r: OptionCache)
        ensures
            r.wf(),
            r@ == Map::<Seq<char>, CachedOptions>::empty(),
    {
        OptionCache { cache: Vec::new() }
    }

    /// The live entry for `key` at time `now_ms`.
    pub fn get_at(&self, key: &str, now_ms: u64) -> (r: Option<&Vec<String>>)
        requires
            self.wf(),
        ensures
            match r {
                Some(v) => self.visible(key@, now_ms) == Some(v@),
                None => self.visible(key@, now_ms) is None,
            },
    {
        match find_key(&self.cache, key) {
            None => None,
            Some(i) => {
                proof {
                    lemma_map_of_at(self.cache@, i as int);
                }
                let e = &self.cache[i].1;
                let age: u64 = if now_ms >= e.timestamp_ms {
                    now_ms - e.timestamp_ms
                } else {
                    0
                };
                if (age as u128) < (e.ttl_secs as u128) * 1000 {
                    Some(&e.options)
                } else {
                    None
                }
            },
        }
    }

    /// The live entry for `key` now, by the wall clock.
    pub fn get(&self, key: &str) -> (r: Option<&Vec<String>>)
        requires
            self.wf(),
        ensures
            r is Some ==> self@.contains_key(key@) && self@[key@].options@ == r->0@,
    {
        self.get_at(key, now_millis())
    }

    /// Stores `options` under `key`, captured at `now_ms`, replacing any
    /// earlier entry.
    pub fn insert_at(&mut self, key: String, options: Vec<String>, duration_secs: u64, now_ms: u64)
        requires
            old(self).wf(),
        ensures
            final(self).wf(),
            final(self)@ == old(self)@.insert(
                key@,
                CachedOptions { options, timestamp_ms: now_ms, ttl_secs: duration_secs },
            ),
    {
        let entry = CachedOptions { options, timestamp_ms: now_ms, ttl_secs: duration_secs };
        match find_key(&self.cache, key.as_str()) {
            Some(i) => {
                proof {
                    lemma_map_of_update(self.cache@, i as int, (key, entry));
                }
                self.cache.set(i, (key, entry));
            },
            None => {
                proof {
                    lemma_map_of_has(self.cache@, key@);
                }
                let ghost old_e = self.cache@;
                self.cache.push((key, entry));
                assert(self.cache@.drop_last() == old_e);
            },
        }
    }

    /// Stores `options` under `key`, captured now by the wall clock.
    pub fn insert(&mut self, key: String, options: Vec<String>, duration_secs: u64)
        requires
            old(self).wf(),
        ensures
            final(self).wf(),
            final(self)@.contains_key(key@),
            final(self)@[key@].options == options,
            final(self)@[key@].ttl_secs == duration_secs,
            forall|k: Seq<char>| k != key@ ==> #[trigger] final(self)@.contains_key(k) == old(self)@.contains_key(k)
                && (old(self)@.contains_key(k) ==> final(self)@[k] == old(self)@[k]),
    {
        let now = now_millis();
        self.insert_at(key, options, duration_secs, now);
    }

    pub fn clear(&mut self)
        ensures
            final(self).wf(),
            final(self)@ == Map::<Seq<char>, CachedOptions>::empty(),
    {
        self.cache.clear();
    }
}

} // verus!
