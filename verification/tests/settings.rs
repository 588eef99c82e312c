use ingest_pipeline::arrival::Arrival;
use ingest_pipeline::cache::{CachePolicy, MAX_TIME_TO_LIVE_SECS};
use ingest_pipeline::events::{EventBuffer, Outcome};
use ingest_pipeline::filter::client_filter;
use ingest_pipeline::settings::Settings;
use ingest_pipeline::telemetry::{Command, Metric};

fn settings() -> Settings {
    Settings {
        cache_size: 100,
        access_key_cache_ttl_secs: 1800,
        event_save_buffer_size: 2,
        event_save_timeout_secs: 30,
        metric_save_channel_size: 2048,
        metric_system_id: "IntegrationOS-Internal-System".to_string(),
        segment_write_key: None,
    }
}

#[test]
fn ordinary_settings_are_startable() {
    assert!(settings().is_startable());
}

#[test]
fn empty_event_buffer_is_not_startable() {
    let mut changed = settings();
    changed.event_save_buffer_size = 0;
    assert!(!changed.is_startable());
}

#[test]
fn empty_metric_channel_is_not_startable() {
    let mut changed = settings();
    changed.metric_save_channel_size = 0;
    assert!(!changed.is_startable());
}

#[test]
fn time_to_live_over_the_longest_is_not_startable() {
    let mut changed = settings();
    changed.access_key_cache_ttl_secs = MAX_TIME_TO_LIVE_SECS;
    assert!(changed.is_startable());
    changed.access_key_cache_ttl_secs = MAX_TIME_TO_LIVE_SECS + 1;
    assert!(!changed.is_startable());
}

#[test]
fn access_key_cache_expires_and_lookup_caches_do_not() {
    let configured = settings();
    assert_eq!(
        configured.access_key_cache(),
        CachePolicy { max_capacity: 100, time_to_live_secs: Some(1800) }
    );
    assert_eq!(
        configured.lookup_cache(),
        CachePolicy { max_capacity: 100, time_to_live_secs: None }
    );
}

#[test]
fn event_buffer_batches_by_the_configured_size() {
    let mut buffer: EventBuffer<u8> = settings().event_buffer();
    assert_eq!(buffer.capacity(), 2);
    assert_eq!(buffer.len(), 0);
    assert_eq!(buffer.step(Arrival::Item(1)), Outcome { batch: None, done: false });
    assert_eq!(buffer.step(Arrival::Item(2)), Outcome { batch: Some(vec![1, 2]), done: false });
}

#[test]
fn telemetry_forwards_iff_a_write_key_is_set() {
    let without = settings();
    let mut with_key = settings();
    with_key.segment_write_key = Some("write-key".to_string());
    let quiet: Arrival<Metric<u8, u8>> = Arrival::Timeout;
    assert_eq!(without.telemetry().step(quiet.clone()), Command::Idle);
    assert_eq!(with_key.telemetry().step(quiet), Command::FlushForwarder);
}

#[test]
fn telemetry_keys_the_system_aggregate_by_the_configured_id() {
    let metric: Metric<u8, u8> = Metric { client_id: "tenant".to_string(), update: 3, track: 4 };
    assert_eq!(
        settings().telemetry().step(Arrival::Item(metric)),
        Command::Record {
            tenant: client_filter("tenant"),
            system: client_filter("IntegrationOS-Internal-System"),
            update: 3,
            message: None,
        }
    );
}

#[test]
fn both_consumers_share_the_flush_timeout() {
    assert_eq!(settings().flush_timeout_secs(), 30);
}
