//! Single-entry, time-bounded cache for the rendered model listing.

use vstd::prelude::*;

verus! {

/// Number of seconds a cached model listing stays fresh.
pub const CACHE_TTL_SECS: u64 = 300;

/// One cached rendering of the model listing, stamped with the second
/// (since some fixed epoch) at which it was installed.
pub struct CacheSlot {
    pub value: String,
    pub inserted_at: u64,
}

/// A cache holding at most one live entry at a time.  An absent slot, or a
/// slot whose age has reached the fixed time-to-live, is a miss.  Callers
/// supply the current time, so the cache's behaviour is verified for every
/// clock value.
pub struct ModelCache {
    pub slot: Option<CacheSlot>,
}

impl ModelCache {
    /// The slot exists and its age at `now` is below the time-to-live.
    pub open spec fn fresh_at(&self, now: u64) -> bool {
        match self.slot {
            Some(s) => s.inserted_at <= now && now - s.inserted_at < CACHE_TTL_SECS,
            None => false,
        }
    }

    /// A fresh cache holds no entry, so its first read at any time misses.
    pub fn new() -> (c: Self)
        ensures
            c.slot is None,
            forall|now: u64| !c.fresh_at(now),
    {
        ModelCache { slot: None }
    }

    /// Return the stored value exactly when the slot is live at `now`.
    pub fn get(&self, now: u64) -> (r: Option<&String>)
        ensures
            r is Some <==> self.fresh_at(now),
            r matches Some(v) ==> self.slot matches Some(s) && v@ == s.value@,
    {
        match &self.slot {
            Some(s) => {
                if s.inserted_at <= now && now - s.inserted_at < CACHE_TTL_SECS {
                    Some(&s.value)
                } else {
                    None
                }
            },
            None => None,
        }
    }

    /// Install a fresh entry stamped `now`, replacing any prior one.
    pub fn put(&mut self, value: String, now: u64)
        ensures
            final(self).slot matches Some(s) && s.value@ == value@ && s.inserted_at == now,
    {
        self.slot = Some(CacheSlot { value, inserted_at: now });
    }
}

/// A value installed at `t0` is still returned by a read at any `t1` less
/// than the time-to-live later, and is no longer returned once the
/// time-to-live has elapsed.
pub proof fn lemma_cache_ttl(c: ModelCache, t0: u64, t1: u64)
    requires
        c.slot matches Some(s) && s.inserted_at == t0,
        t0 <= t1,
    ensures
        t1 - t0 < CACHE_TTL_SECS ==> c.fresh_at(t1),
        t1 - t0 >= CACHE_TTL_SECS ==> !c.fresh_at(t1),
{
}

} // verus!
