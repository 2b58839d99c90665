//! The memo of bundle identifiers by process id.

use std::collections::HashMap;
use vstd::prelude::*;

verus! {

broadcast use vstd::std_specs::hash::group_hash_axioms;

/// Upper bound on the number of cached entries. The daemon runs indefinitely and
/// pids accumulate; the cache is flushed when it is full so memory stays bounded.
pub const BUNDLE_CACHE_MAX: usize = 1024;

/// The cache after recording `bundle` for `pid`: a full cache is flushed first.
pub open spec fn cache_after_record(
    cache: Map<i32, Option<String>>,
    pid: i32,
    bundle: Option<String>,
) -> Map<i32, Option<String>> {
    if cache.len() >= BUNDLE_CACHE_MAX {
        Map::<i32, Option<String>>::empty().insert(pid, bundle)
    } else {
        cache.insert(pid, bundle)
    }
}

/// Bundle identifier (or its known absence) per pid, with at most
/// [`BUNDLE_CACHE_MAX`] entries. A pid may be recycled by the OS; a stale entry
/// stays until the next flush.
pub struct BundleCache {
    entries: HashMap<i32, Option<String>>,
}

impl View for BundleCache {
    type V = Map<i32, Option<String>>;

    closed spec fn view(&self) -> Map<i32, Option<String>> {
        self.entries@
    }
}

impl BundleCache {
    #[verifier::type_invariant]
    spec fn bounded(self) -> bool {
        self.entries@.len() <= BUNDLE_CACHE_MAX
    }

    /// An empty cache.
    pub fn new() -> (c: BundleCache)
        ensures
            c@ == Map::<i32, Option<String>>::empty(),
    {
        BundleCache { entries: HashMap::new() }
    }

    /// The number of cached pids; never more than [`BUNDLE_CACHE_MAX`].
    pub fn len(&self) -> (n: usize)
        ensures
            n == self@.len(),
            n <= BUNDLE_CACHE_MAX,
            self@.dom().finite(),
    {
        proof {
            use_type_invariant(self);
        }
        self.entries.len()
    }

    /// The cached entry for `pid`: `Some(bundle)` on a hit (where `bundle` may itself
    /// be `None`, a pid known to have no bundle id), `None` on a miss.
    pub fn lookup(&self, pid: i32) -> (res: Option<Option<String>>)
        ensures
            res == (if self@.contains_key(pid) {
                Some(self@[pid])
            } else {
                None
            }),
    {
        match self.entries.get(&pid) {
            Some(cached) => {
                let copy = match cached {
                    Some(s) => Some(s.clone()),
                    None => None,
                };
                Some(copy)
            },
            None => None,
        }
    }

    /// Record the bundle id looked up for `pid`, flushing the cache first when it
    /// is full, and hand the bundle id back.
    pub fn record(&mut self, pid: i32, bundle: Option<String>) -> (res: Option<String>)
        ensures
            final(self)@ == cache_after_record(old(self)@, pid, bundle),
            final(self)@.len() <= BUNDLE_CACHE_MAX,
            res == bundle,
    {
        proof {
            use_type_invariant(&*self);
        }
        let copy = match &bundle {
            Some(s) => Some(s.clone()),
            None => None,
        };
        let mut entries = HashMap::new();
        std::mem::swap(&mut entries, &mut self.entries);
        if entries.len() >= BUNDLE_CACHE_MAX {
            entries.clear();
        }
        proof {
            if !entries@.contains_key(pid) {
                assert(entries@.len() < BUNDLE_CACHE_MAX);
            }
        }
        entries.insert(pid, bundle);
        proof {
            if old(self)@.len() >= BUNDLE_CACHE_MAX {
                assert(entries@ =~= Map::<i32, Option<String>>::empty().insert(pid, copy));
            }
        }
        self.entries = entries;
        copy
    }
}

/// A recorded bundle id is what a lookup of that pid gives back.
pub proof fn lemma_lookup_after_record(
    cache: Map<i32, Option<String>>,
    pid: i32,
    bundle: Option<String>,
)
    ensures
        cache_after_record(cache, pid, bundle).contains_key(pid),
        cache_after_record(cache, pid, bundle)[pid] == bundle,
{
}

/// Recording into a cache that is not full keeps every other entry.
pub proof fn lemma_record_keeps_others_unless_full(
    cache: Map<i32, Option<String>>,
    pid: i32,
    bundle: Option<String>,
    other: i32,
)
    requires
        cache.len() < BUNDLE_CACHE_MAX,
        cache.contains_key(other),
        other != pid,
    ensures
        cache_after_record(cache, pid, bundle).contains_key(other),
        cache_after_record(cache, pid, bundle)[other] == cache[other],
{
}

/// Recording into a full cache leaves only the new entry.
pub proof fn lemma_full_cache_is_flushed(
    cache: Map<i32, Option<String>>,
    pid: i32,
    bundle: Option<String>,
)
    requires
        cache.len() >= BUNDLE_CACHE_MAX,
    ensures
        cache_after_record(cache, pid, bundle).dom() =~= set![pid],
{
}

} // verus!
