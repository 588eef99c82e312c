//! The durable event consumer: events gather in a batch that is written out
//! when it is full, when the flush timeout passes, or when the input closes.

use crate::arrival::Arrival;
use vstd::prelude::*;

verus! {

/// The events held once `arrival` has been taken in.
pub open spec fn received<T>(pending: Seq<T>, arrival: Arrival<T>) -> Seq<T> {
    match arrival {
        Arrival::Item(event) => pending.push(event),
        _ => pending,
    }
}

/// Whether `arrival` makes the consumer write out what it holds: the batch
/// is full, or the wait ended without an event while some are held.
pub open spec fn flush_due<T>(batch_size: nat, pending: Seq<T>, arrival: Arrival<T>) -> bool {
    let held = received(pending, arrival);
    held.len() == batch_size || (arrival.is_quiet() && held.len() > 0)
}

/// The batch that `arrival` detaches, if any.
pub open spec fn flushed<T>(batch_size: nat, pending: Seq<T>, arrival: Arrival<T>) -> Option<Seq<T>> {
    if flush_due(batch_size, pending, arrival) {
        Some(received(pending, arrival))
    } else {
        None
    }
}

/// The events still held after `arrival`.
pub open spec fn kept<T>(batch_size: nat, pending: Seq<T>, arrival: Arrival<T>) -> Seq<T> {
    if flush_due(batch_size, pending, arrival) {
        Seq::empty()
    } else {
        received(pending, arrival)
    }
}

/// What one step of the consumer asks of its driver.
#[derive(Debug, PartialEq, Eq)]
pub struct Outcome<T> {
    /// The batch to store with one insert-many, in arrival order.
    pub batch: Option<Vec<T>>,
    /// The input is closed: the consumer exits after this step.
    pub done: bool,
}

impl<T> Outcome<T> {
    /// The batch as a sequence.
    pub open spec fn batch_view(self) -> Option<Seq<T>> {
        match self.batch {
            Some(batch) => Some(batch@),
            None => None,
        }
    }
}

/// The accumulating state of the consumer.
#[derive(Debug)]
pub struct EventBuffer<T> {
    batch_size: usize,
    pending: Vec<T>,
}

impl<T> EventBuffer<T> {
    /// The number of events that makes a batch full.
    pub closed spec fn batch_size(&self) -> nat {
        self.batch_size as nat
    }

    /// The events received and not yet flushed, oldest first.
    pub closed spec fn pending(&self) -> Seq<T> {
        self.pending@
    }

    /// Between two steps the buffer holds less than a full batch.
    pub open spec fn wf(&self) -> bool {
        self.pending().len() < self.batch_size()
    }

    /// An empty buffer that flushes at `batch_size` events.
    pub fn new(batch_size: usize) -> (buffer: Self)
        requires
            batch_size >= 1,
        ensures
            buffer.wf(),
            buffer.batch_size() == batch_size,
            buffer.pending() == Seq::<T>::empty(),
    {
        EventBuffer { batch_size, pending: Vec::new() }
    }

    /// The number of events that makes a batch full.
    pub fn capacity(&self) -> (n: usize)
        ensures
            n == self.batch_size(),
    {
        self.batch_size
    }

    /// The number of events held.
    pub fn len(&self) -> (n: usize)
        ensures
            n == self.pending().len(),
    {
        self.pending.len()
    }

    /// Takes in what ended the wait. An event joins the batch. The batch is
    /// detached, and the buffer left empty, when it is full or when the wait
    /// ended without an event while the batch is not empty. What becomes of a
    /// detached batch is never reported back: it is not held again.
    pub fn step(&mut self, arrival: Arrival<T>) -> (out: Outcome<T>)
        requires
            old(self).wf(),
        ensures
            final(self).wf(),
            final(self).batch_size() == old(self).batch_size(),
            final(self).pending() == kept(old(self).batch_size(), old(self).pending(), arrival),
            out.batch_view() == flushed(old(self).batch_size(), old(self).pending(), arrival),
            out.done == (arrival is Closed),
    {
        let (quiet, done) = match arrival {
            Arrival::Item(event) => {
                self.pending.push(event);
                (false, false)
            },
            Arrival::Timeout => (true, false),
            Arrival::Closed => (true, true),
        };
        if self.pending.len() == self.batch_size || (quiet && self.pending.len() > 0) {
            let mut batch: Vec<T> = Vec::new();
            core::mem::swap(&mut self.pending, &mut batch);
            Outcome { batch: Some(batch), done }
        } else {
            Outcome { batch: None, done }
        }
    }
}

} // verus!
