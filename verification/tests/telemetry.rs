use bson::Document;
use ingest_pipeline::arrival::Arrival;
use ingest_pipeline::filter::client_filter;
use ingest_pipeline::telemetry::{upsert_failures, Command, Metric, Target, Telemetry};

fn by_client(client_id: &str) -> Document {
    let mut filter = Document::new();
    filter.insert("clientId", client_id);
    filter
}

fn metric(client: &str) -> Metric<&'static str, u32> {
    Metric { client_id: client.to_string(), update: "inc", track: 42 }
}

#[test]
fn metric_is_recorded_under_owner_and_system() {
    let telemetry = Telemetry::new("system".to_string(), false);
    assert_eq!(
        telemetry.step(Arrival::Item(metric("client-1"))),
        Command::Record {
            tenant: by_client("client-1"),
            system: by_client("system"),
            update: "inc",
            message: None,
        }
    );
}

#[test]
fn metric_is_forwarded_where_a_sink_is_configured() {
    let telemetry = Telemetry::new("sys".to_string(), true);
    assert_eq!(
        telemetry.step(Arrival::Item(metric("client-2"))),
        Command::Record {
            tenant: by_client("client-2"),
            system: by_client("sys"),
            update: "inc",
            message: Some(42),
        }
    );
}

#[test]
fn owner_equal_to_system_id_still_gets_two_upserts() {
    let telemetry = Telemetry::new("sys".to_string(), false);
    let command = telemetry.step(Arrival::Item(metric("sys")));
    assert_eq!(
        command,
        Command::Record {
            tenant: by_client("sys"),
            system: by_client("sys"),
            update: "inc",
            message: None,
        }
    );
}

#[test]
fn timeout_flushes_the_sink_only_where_there_is_one() {
    let with_sink = Telemetry::new("sys".to_string(), true);
    let without = Telemetry::new("sys".to_string(), false);
    let quiet: Arrival<Metric<&'static str, u32>> = Arrival::Timeout;
    assert_eq!(with_sink.step(quiet.clone()), Command::FlushForwarder);
    assert_eq!(without.step(quiet), Command::Idle);
}

#[test]
fn closing_ends_the_consumer_after_a_last_flush() {
    let with_sink = Telemetry::new("sys".to_string(), true);
    let without = Telemetry::new("sys".to_string(), false);
    let closed: Arrival<Metric<&'static str, u32>> = Arrival::Closed;
    assert_eq!(with_sink.step(closed.clone()), Command::Exit { flush_forwarder: true });
    assert_eq!(without.step(closed), Command::Exit { flush_forwarder: false });
}

#[test]
fn consumer_keeps_no_state_between_metrics() {
    let telemetry = Telemetry::new("sys".to_string(), true);
    let first = telemetry.step(Arrival::Item(metric("a")));
    let quiet: Arrival<Metric<&'static str, u32>> = Arrival::Timeout;
    telemetry.step(quiet);
    let second = telemetry.step(Arrival::Item(metric("a")));
    assert_eq!(first, second);
}

#[test]
fn no_failure_when_both_upserts_succeed() {
    let failed: Vec<(Target, &str)> = upsert_failures(Ok(()), Ok(()));
    assert!(failed.is_empty());
}

#[test]
fn tenant_failure_does_not_hide_the_system_upsert() {
    let failed = upsert_failures(Err("tenant down"), Ok(()));
    assert_eq!(failed, vec![(Target::Tenant, "tenant down")]);
}

#[test]
fn system_failure_does_not_hide_the_tenant_upsert() {
    let failed = upsert_failures(Ok(()), Err("system down"));
    assert_eq!(failed, vec![(Target::System, "system down")]);
}

#[test]
fn both_failures_are_reported_tenant_first() {
    let failed = upsert_failures(Err("one"), Err("two"));
    assert_eq!(failed, vec![(Target::Tenant, "one"), (Target::System, "two")]);
}

#[test]
fn client_filter_has_the_one_field_client_id() {
    let filter = client_filter("client-9");
    assert_eq!(filter.len(), 1);
    assert_eq!(filter.get_str("clientId"), Ok("client-9"));
    assert_eq!(filter.keys().collect::<Vec<_>>(), vec!["clientId"]);
}

#[test]
fn client_filter_of_an_empty_id_still_has_the_field() {
    let filter = client_filter("");
    assert_eq!(filter.len(), 1);
    assert_eq!(filter.get_str("clientId"), Ok(""));
}

#[test]
fn filters_of_different_clients_differ() {
    assert_ne!(client_filter("a"), client_filter("b"));
    assert_eq!(client_filter("a"), by_client("a"));
}
