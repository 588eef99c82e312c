//! The lookup caches: how large each may grow and how long an entry lives.
//! The caching itself is done by `moka`; a cache is read and filled through
//! the handle it is built with.

use moka::future::Cache;
use std::hash::Hash;
use std::time::Duration;
use vstd::prelude::*;

verus! {

/// A concurrent cache of `moka`, bounded by entry count and optionally by
/// age. Nothing of what it holds is visible here.
#[verifier::external_type_specification]
#[verifier::external_body]
#[verifier::reject_recursive_types(K)]
#[verifier::reject_recursive_types(V)]
#[verifier::reject_recursive_types(S)]
pub struct ExCache<K, V, S>(Cache<K, V, S>);

/// The longest time to live that a cache can be built with, in seconds:
/// a thousand years of 365 days.
pub const MAX_TIME_TO_LIVE_SECS: u64 = 31_536_000_000;

/// The bounds of one cache.
#[derive(Clone, Copy, Debug, PartialEq, Eq, Structural)]
pub struct CachePolicy {
    /// The number of entries that the cache is meant to hold at most.
    pub max_capacity: u64,
    /// The age, in seconds, past which an entry is no longer served;
    /// `None` where entries do not age.
    pub time_to_live_secs: Option<u64>,
}

impl CachePolicy {
    /// Whether a cache can be built to this policy: its time to live, if it
    /// has one, is not over the longest that can be set.
    pub open spec fn buildable(&self) -> bool {
        match self.time_to_live_secs {
            Some(secs) => secs <= MAX_TIME_TO_LIVE_SECS,
            None => true,
        }
    }

    /// A policy that bounds the number of entries only.
    pub fn bounded(max_capacity: u64) -> (policy: Self)
        ensures
            policy == (CachePolicy { max_capacity, time_to_live_secs: None }),
            policy.buildable(),
    {
        CachePolicy { max_capacity, time_to_live_secs: None }
    }

    /// A policy that bounds the number of entries and their age.
    pub fn expiring(max_capacity: u64, time_to_live_secs: u64) -> (policy: Self)
        ensures
            policy == (CachePolicy { max_capacity, time_to_live_secs: Some(time_to_live_secs) }),
            policy.buildable() == (time_to_live_secs <= MAX_TIME_TO_LIVE_SECS),
    {
        CachePolicy { max_capacity, time_to_live_secs: Some(time_to_live_secs) }
    }

    /// Whether a cache can be built to this policy.
    pub fn is_buildable(&self) -> (ok: bool)
        ensures
            ok == self.buildable(),
    {
        match self.time_to_live_secs {
            Some(secs) => secs <= MAX_TIME_TO_LIVE_SECS,
            None => true,
        }
    }
}

/// Calls `moka::future::Cache::new`: a cache bounded by `max_capacity`
/// entries whose entries do not age. Nothing is claimed of the cache.
#[verifier::external_body]
fn build_bounded<K, V>(max_capacity: u64) -> Cache<K, V> where
    K: Hash + Eq + Send + Sync + 'static,
    V: Clone + Send + Sync + 'static,
 {
    Cache::new(max_capacity)
}

/// Calls `moka::future::CacheBuilder::build` after `max_capacity` and
/// `time_to_live`: a cache bounded by `max_capacity` entries whose entries
/// expire `secs` seconds after they were inserted. `build` panics on a time
/// to live of more than a thousand years, which `requires` leaves out.
/// Nothing is claimed of the cache.
#[verifier::external_body]
fn build_expiring<K, V>(max_capacity: u64, secs: u64) -> Cache<K, V> where
    K: Hash + Eq + Send + Sync + 'static,
    V: Clone + Send + Sync + 'static,

    requires
        secs <= MAX_TIME_TO_LIVE_SECS,
{
    Cache::builder().max_capacity(max_capacity).time_to_live(Duration::from_secs(secs)).build()
}

/// A cache together with the policy that it was built to.
#[verifier::reject_recursive_types(K)]
#[verifier::reject_recursive_types(V)]
pub struct KeyedCache<K, V> {
    policy: CachePolicy,
    cache: Cache<K, V>,
}

impl<K, V> KeyedCache<K, V> where
    K: Hash + Eq + Send + Sync + 'static,
    V: Clone + Send + Sync + 'static,
 {
    /// The policy that the cache was built to.
    pub closed spec fn policy(&self) -> CachePolicy {
        self.policy
    }

    /// Builds a cache to `policy`; `None` where no cache can be built to it.
    pub fn build(policy: CachePolicy) -> (built: Option<Self>)
        ensures
            built.is_some() == policy.buildable(),
            built matches Some(keyed) ==> keyed.policy() == policy,
    {
        match policy.time_to_live_secs {
            None => Some(KeyedCache { policy, cache: build_bounded(policy.max_capacity) }),
            Some(secs) => if secs <= MAX_TIME_TO_LIVE_SECS {
                Some(KeyedCache { policy, cache: build_expiring(policy.max_capacity, secs) })
            } else {
                None
            },
        }
    }

    /// The bounds that the cache was built to.
    pub fn bounds(&self) -> (policy: CachePolicy)
        ensures
            policy == self.policy(),
    {
        self.policy
    }

    /// The cache that was built.
    pub closed spec fn cache(&self) -> Cache<K, V> {
        self.cache
    }

    /// The cache itself, to read and fill.
    pub fn handle(&self) -> (cache: &Cache<K, V>)
        ensures
            *cache == self.cache(),
    {
        &self.cache
    }
}

} // verus!
