//! The telemetry consumer: each metric is upserted under its owner and under
//! the system aggregate, and forwarded to the analytics sink where one is
//! configured. Nothing here is batched but the sink's own buffer.

use crate::arrival::Arrival;
use crate::filter::{client_filter, client_filter_entries, document_entries};
use bson::Document;
use vstd::prelude::*;

verus! {

/// One measurable occurrence, as the consumer needs it.
#[derive(Clone, Debug, PartialEq, Eq)]
pub struct Metric<D, M> {
    /// The client that the metric is attributed to.
    pub client_id: String,
    /// The update document derived from the metric.
    pub update: D,
    /// The tracking message derived from the metric.
    pub track: M,
}

/// A metric with its owner as a sequence of characters.
pub struct MetricView<D, M> {
    pub client_id: Seq<char>,
    pub update: D,
    pub track: M,
}

impl<D, M> View for Metric<D, M> {
    type V = MetricView<D, M>;

    open spec fn view(&self) -> MetricView<D, M> {
        MetricView { client_id: self.client_id@, update: self.update, track: self.track }
    }
}

/// What the consumer asks of its driver after one wait.
#[derive(Debug, PartialEq)]
pub enum Command<D, M> {
    /// Apply `update`, inserting where nothing matches, once to the record
    /// that the filter `tenant` selects and once to the one that `system`
    /// selects. Attempt both, whatever becomes of either. Then push
    /// `message`, if there is one, into the sink's buffer.
    Record { tenant: Document, system: Document, update: D, message: Option<M> },
    /// Send what the sink's buffer holds.
    FlushForwarder,
    /// Nothing to do: wait again.
    Idle,
    /// The input is closed: send what the sink's buffer holds if
    /// `flush_forwarder` is set, then exit.
    Exit { flush_forwarder: bool },
}

/// A command with each filter as the sequence of its entries.
pub enum CommandView<D, M> {
    Record {
        tenant: Seq<(Seq<char>, Option<Seq<char>>)>,
        system: Seq<(Seq<char>, Option<Seq<char>>)>,
        update: D,
        message: Option<M>,
    },
    FlushForwarder,
    Idle,
    Exit { flush_forwarder: bool },
}

impl<D, M> View for Command<D, M> {
    type V = CommandView<D, M>;

    open spec fn view(&self) -> CommandView<D, M> {
        match *self {
            Command::Record { tenant, system, update, message } => CommandView::Record {
                tenant: document_entries(tenant),
                system: document_entries(system),
                update,
                message,
            },
            Command::FlushForwarder => CommandView::FlushForwarder,
            Command::Idle => CommandView::Idle,
            Command::Exit { flush_forwarder } => CommandView::Exit { flush_forwarder },
        }
    }
}

/// What ended the wait, with a metric taken by its view.
pub open spec fn arrival_view<D, M>(arrival: Arrival<Metric<D, M>>) -> Arrival<MetricView<D, M>> {
    match arrival {
        Arrival::Item(metric) => Arrival::Item(metric@),
        Arrival::Timeout => Arrival::Timeout,
        Arrival::Closed => Arrival::Closed,
    }
}

/// The command that answers `arrival`, for a consumer whose system aggregate
/// is keyed by `system_id` and that forwards to a sink iff `forwarding`.
pub open spec fn command_for<D, M>(
    system_id: Seq<char>,
    forwarding: bool,
    arrival: Arrival<MetricView<D, M>>,
) -> CommandView<D, M> {
    match arrival {
        Arrival::Item(metric) => CommandView::Record {
            tenant: client_filter_entries(metric.client_id),
            system: client_filter_entries(system_id),
            update: metric.update,
            message: if forwarding {
                Some(metric.track)
            } else {
                None
            },
        },
        Arrival::Timeout => if forwarding {
            CommandView::FlushForwarder
        } else {
            CommandView::Idle
        },
        Arrival::Closed => CommandView::Exit { flush_forwarder: forwarding },
    }
}

/// One of the two aggregates that a metric is written to.
#[derive(Clone, Copy, Debug, PartialEq, Eq, Structural)]
pub enum Target {
    /// The aggregate of the metric's own client.
    Tenant,
    /// The aggregate of the whole system.
    System,
}

/// The upserts that failed, the tenant's first, each with its error.
pub open spec fn failures_of<E>(tenant: Result<(), E>, system: Result<(), E>) -> Seq<(Target, E)> {
    let first = match tenant {
        Err(e) => seq![(Target::Tenant, e)],
        Ok(_) => Seq::empty(),
    };
    match system {
        Err(e) => first.push((Target::System, e)),
        Ok(_) => first,
    }
}

/// Reads the outcomes of the two upserts of one metric: the failures to log.
/// Neither is fatal, and neither hides the other.
pub fn upsert_failures<E>(tenant: Result<(), E>, system: Result<(), E>) -> (failed: Vec<(Target, E)>)
    ensures
        failed@ == failures_of(tenant, system),
{
    let mut failed: Vec<(Target, E)> = Vec::new();
    if let Err(e) = tenant {
        failed.push((Target::Tenant, e));
    }
    if let Err(e) = system {
        failed.push((Target::System, e));
    }
    failed
}

/// The telemetry consumer's fixed settings. It keeps no state between waits.
#[derive(Debug)]
pub struct Telemetry {
    system_id: String,
    forwarding: bool,
}

impl Telemetry {
    /// The client id that keys the system aggregate.
    pub closed spec fn system_id(&self) -> Seq<char> {
        self.system_id@
    }

    /// Whether metrics are forwarded to an analytics sink.
    pub closed spec fn forwarding(&self) -> bool {
        self.forwarding
    }

    /// A consumer that writes the system aggregate under `system_id`, and
    /// forwards to an analytics sink iff `forwarding`.
    pub fn new(system_id: String, forwarding: bool) -> (telemetry: Self)
        ensures
            telemetry.system_id() == system_id@,
            telemetry.forwarding() == forwarding,
    {
        Telemetry { system_id, forwarding }
    }

    /// Answers what ended the wait. A metric is recorded under both keys and
    /// forwarded where a sink is configured; a timeout flushes the sink's
    /// buffer; the input's closing flushes it a last time and ends the
    /// consumer.
    pub fn step<D, M>(&self, arrival: Arrival<Metric<D, M>>) -> (command: Command<D, M>)
        ensures
            command@ == command_for(self.system_id(), self.forwarding(), arrival_view(arrival)),
    {
        match arrival {
            Arrival::Item(metric) => {
                let message = if self.forwarding {
                    Some(metric.track)
                } else {
                    None
                };
                Command::Record {
                    tenant: client_filter(metric.client_id.as_str()),
                    system: client_filter(self.system_id.as_str()),
                    update: metric.update,
                    message,
                }
            },
            Arrival::Timeout => if self.forwarding {
                Command::FlushForwarder
            } else {
                Command::Idle
            },
            Arrival::Closed => Command::Exit { flush_forwarder: self.forwarding },
        }
    }
}

/// Both upserts of a metric are always asked for, one filtered by the
/// metric's owner and one by the system aggregate's id, with one and the same
/// update; and what is reported of one does not depend on what became of the
/// other.
pub proof fn lemma_both_upserts_attempted<D, M, E>(
    system_id: Seq<char>,
    forwarding: bool,
    metric: MetricView<D, M>,
    tenant: Result<(), E>,
    system: Result<(), E>,
)
    ensures
        command_for(system_id, forwarding, Arrival::Item(metric)) matches CommandView::Record {
            tenant: t,
            system: s,
            update: u,
            ..
        } && t == seq![("clientId"@, Some(metric.client_id))] && s == seq![
            ("clientId"@, Some(system_id)),
        ] && u == metric.update,
        failures_of(tenant, system).len() == (if tenant is Err {
            1nat
        } else {
            0nat
        }) + (if system is Err {
            1nat
        } else {
            0nat
        }),
        tenant matches Err(e) ==> failures_of(tenant, system)[0] == (Target::Tenant, e),
        system matches Err(e) ==> failures_of(tenant, system).last() == (Target::System, e),
{
}

} // verus!
