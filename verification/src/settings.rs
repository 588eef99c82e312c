//! What the configuration, read once at startup, means for each part that
//! is built from it.

use crate::cache::{CachePolicy, MAX_TIME_TO_LIVE_SECS};
use crate::events::EventBuffer;
use crate::telemetry::Telemetry;
use vstd::prelude::*;

verus! {

/// The configured values that the caches and the two consumers are built
/// from.
#[derive(Clone, Debug, PartialEq, Eq)]
pub struct Settings {
    /// Entries that each lookup cache may hold.
    pub cache_size: u64,
    /// Seconds that a cached access key is served before it is looked up
    /// again.
    pub access_key_cache_ttl_secs: u64,
    /// Events that make one batch; also the capacity of the event channel.
    pub event_save_buffer_size: usize,
    /// Seconds without an arrival after which either consumer flushes.
    pub event_save_timeout_secs: u64,
    /// The capacity of the metric channel.
    pub metric_save_channel_size: usize,
    /// The client id that keys the system-wide metric aggregate.
    pub metric_system_id: String,
    /// The write key of the analytics sink; metrics are forwarded iff it is
    /// set.
    pub segment_write_key: Option<String>,
}

impl Settings {
    /// Whether everything can be built from these settings: both channels
    /// have room for at least one item, and the access-key cache's time to
    /// live is one that a cache can be built with.
    pub open spec fn startable(&self) -> bool {
        &&& self.event_save_buffer_size >= 1
        &&& self.metric_save_channel_size >= 1
        &&& self.access_key_cache_ttl_secs <= MAX_TIME_TO_LIVE_SECS
    }

    /// Whether everything can be built from these settings.
    pub fn is_startable(&self) -> (ok: bool)
        ensures
            ok == self.startable(),
    {
        self.event_save_buffer_size >= 1 && self.metric_save_channel_size >= 1
            && self.access_key_cache_ttl_secs <= MAX_TIME_TO_LIVE_SECS
    }

    /// The bounds of the access-key cache: the configured size, and the
    /// configured time to live.
    pub fn access_key_cache(&self) -> (policy: CachePolicy)
        ensures
            policy == (CachePolicy {
                max_capacity: self.cache_size,
                time_to_live_secs: Some(self.access_key_cache_ttl_secs),
            }),
            self.startable() ==> policy.buildable(),
    {
        CachePolicy::expiring(self.cache_size, self.access_key_cache_ttl_secs)
    }

    /// The bounds of the connection cache and of the two caches of
    /// definition listings: the configured size, and no time to live.
    pub fn lookup_cache(&self) -> (policy: CachePolicy)
        ensures
            policy == (CachePolicy { max_capacity: self.cache_size, time_to_live_secs: None }),
            policy.buildable(),
    {
        CachePolicy::bounded(self.cache_size)
    }

    /// The empty buffer of the event consumer: a batch is as large as the
    /// event channel.
    pub fn event_buffer<T>(&self) -> (buffer: EventBuffer<T>)
        requires
            self.event_save_buffer_size >= 1,
        ensures
            buffer.wf(),
            buffer.batch_size() == self.event_save_buffer_size,
            buffer.pending() == Seq::<T>::empty(),
    {
        EventBuffer::new(self.event_save_buffer_size)
    }

    /// The telemetry consumer: it writes the system aggregate under the
    /// configured id and forwards iff a write key is set.
    pub fn telemetry(&self) -> (telemetry: Telemetry)
        ensures
            telemetry.system_id() == self.metric_system_id@,
            telemetry.forwarding() == self.segment_write_key.is_some(),
    {
        Telemetry::new(self.metric_system_id.clone(), self.segment_write_key.is_some())
    }

    /// The seconds that either consumer waits for an arrival before it
    /// flushes: one value for both.
    pub fn flush_timeout_secs(&self) -> (secs: u64)
        ensures
            secs == self.event_save_timeout_secs,
    {
        self.event_save_timeout_secs
    }
}

} // verus!
