//! The event consumer over a whole run: which batches a sequence of
//! arrivals produces, and what holds of them.

use crate::arrival::Arrival;
use crate::events::{flush_due, flushed, kept, EventBuffer};
use vstd::prelude::*;

verus! {

/// The batches that the consumer detaches while it takes in `arrivals`,
/// first to last. It exits at the first `Closed`.
pub open spec fn batches_of<T>(batch_size: nat, pending: Seq<T>, arrivals: Seq<Arrival<T>>) -> Seq<Seq<T>>
    decreases arrivals.len(),
{
    if arrivals.len() == 0 {
        Seq::empty()
    } else {
        let first = arrivals[0];
        let later = if first is Closed {
            Seq::empty()
        } else {
            batches_of(batch_size, kept(batch_size, pending, first), arrivals.drop_first())
        };
        match flushed(batch_size, pending, first) {
            Some(batch) => seq![batch] + later,
            None => later,
        }
    }
}

/// The events that the consumer still holds after `arrivals`.
pub open spec fn pending_after<T>(batch_size: nat, pending: Seq<T>, arrivals: Seq<Arrival<T>>) -> Seq<T>
    decreases arrivals.len(),
{
    if arrivals.len() == 0 {
        pending
    } else {
        let first = arrivals[0];
        let held = kept(batch_size, pending, first);
        if first is Closed {
            held
        } else {
            pending_after(batch_size, held, arrivals.drop_first())
        }
    }
}

/// The events that the consumer takes in from `arrivals`: those that come
/// before the input closes.
pub open spec fn events_of<T>(arrivals: Seq<Arrival<T>>) -> Seq<T>
    decreases arrivals.len(),
{
    if arrivals.len() == 0 {
        Seq::empty()
    } else {
        match arrivals[0] {
            Arrival::Item(event) => seq![event] + events_of(arrivals.drop_first()),
            Arrival::Timeout => events_of(arrivals.drop_first()),
            Arrival::Closed => Seq::empty(),
        }
    }
}

/// Whether the input stays open throughout `arrivals`.
pub open spec fn stays_open<T>(arrivals: Seq<Arrival<T>>) -> bool {
    forall|i: int| 0 <= i < arrivals.len() ==> !(#[trigger] arrivals[i] is Closed)
}

/// `events` arriving one after the other with no timeout between them.
pub open spec fn burst<T>(events: Seq<T>) -> Seq<Arrival<T>> {
    Seq::new(events.len(), |i: int| Arrival::Item(events[i]))
}

/// `count` waits in a row that end in the timeout.
pub open spec fn silence<T>(count: nat) -> Seq<Arrival<T>> {
    Seq::new(count, |i: int| Arrival::Timeout)
}

/// `events` cut into consecutive pieces of `size`, the last one shorter
/// where `size` does not divide their number.
pub open spec fn chunks<T>(events: Seq<T>, size: nat) -> Seq<Seq<T>>
    decreases events.len(),
{
    if events.len() == 0 {
        Seq::empty()
    } else if events.len() <= size || size == 0 {
        seq![events]
    } else {
        seq![events.take(size as int)] + chunks(events.skip(size as int), size)
    }
}

proof fn lemma_flatten_cons<T>(head: Seq<T>, tail: Seq<Seq<T>>)
    ensures
        (seq![head] + tail).flatten() == head + tail.flatten(),
{
    let whole = seq![head] + tail;
    assert(whole.first() == head);
    assert(whole.drop_first() =~= tail);
}

/// Every event is flushed or still held, once, in arrival order: the batches
/// laid end to end, followed by what is held, are what was held before
/// followed by the events taken in. No batch is empty or over the batch size.
pub proof fn lemma_replay_conserves<T>(batch_size: nat, pending: Seq<T>, arrivals: Seq<Arrival<T>>)
    requires
        pending.len() < batch_size,
    ensures
        batches_of(batch_size, pending, arrivals).flatten() + pending_after(
            batch_size,
            pending,
            arrivals,
        ) == pending + events_of(arrivals),
        pending_after(batch_size, pending, arrivals).len() < batch_size,
        forall|i: int|
            0 <= i < batches_of(batch_size, pending, arrivals).len() ==> 1 <= (
            #[trigger] batches_of(batch_size, pending, arrivals)[i]).len() <= batch_size,
    decreases arrivals.len(),
{
    let batches = batches_of(batch_size, pending, arrivals);
    let after = pending_after(batch_size, pending, arrivals);
    if arrivals.len() == 0 {
        assert(batches.flatten() + after =~= pending + events_of(arrivals));
    } else {
        let first = arrivals[0];
        let rest = arrivals.drop_first();
        let held = kept(batch_size, pending, first);
        if first is Closed {
            match flushed(batch_size, pending, first) {
                Some(batch) => {
                    lemma_flatten_cons(batch, Seq::<Seq<T>>::empty());
                    assert(batches.flatten() + after =~= pending + events_of(arrivals));
                },
                None => {
                    assert(batches.flatten() + after =~= pending + events_of(arrivals));
                },
            }
        } else {
            lemma_replay_conserves(batch_size, held, rest);
            let later = batches_of(batch_size, held, rest);
            match flushed(batch_size, pending, first) {
                Some(batch) => {
                    lemma_flatten_cons(batch, later);
                    assert(batches.flatten() + after =~= pending + events_of(arrivals));
                    assert forall|i: int| 0 <= i < batches.len() implies 1 <= (
                    #[trigger] batches[i]).len() <= batch_size by {
                        if i > 0 {
                            assert(batches[i] == later[i - 1]);
                        }
                    }
                },
                None => {
                    assert(batches.flatten() + after =~= pending + events_of(arrivals));
                },
            }
        }
    }
}

/// A run in two parts: while the input stays open through the first part,
/// the second part goes on from what the first part left.
pub proof fn lemma_replay_append<T>(
    batch_size: nat,
    pending: Seq<T>,
    before: Seq<Arrival<T>>,
    after: Seq<Arrival<T>>,
)
    requires
        stays_open(before),
    ensures
        batches_of(batch_size, pending, before + after) == batches_of(batch_size, pending, before)
            + batches_of(batch_size, pending_after(batch_size, pending, before), after),
        pending_after(batch_size, pending, before + after) == pending_after(
            batch_size,
            pending_after(batch_size, pending, before),
            after,
        ),
    decreases before.len(),
{
    if before.len() == 0 {
        assert(before + after =~= after);
        assert(batches_of(batch_size, pending, before) + batches_of(batch_size, pending, after)
            =~= batches_of(batch_size, pending, after));
    } else {
        let first = before[0];
        let held = kept(batch_size, pending, first);
        assert((before + after)[0] == first);
        assert((before + after).drop_first() =~= before.drop_first() + after);
        assert(!(first is Closed));
        assert forall|i: int| 0 <= i < before.drop_first().len() implies !(
        #[trigger] before.drop_first()[i] is Closed) by {
            assert(before.drop_first()[i] == before[i + 1]);
        }
        lemma_replay_append(batch_size, held, before.drop_first(), after);
        let mid = batches_of(batch_size, held, before.drop_first());
        let end = batches_of(
            batch_size,
            pending_after(batch_size, held, before.drop_first()),
            after,
        );
        match flushed(batch_size, pending, first) {
            Some(batch) => {
                assert(seq![batch] + (mid + end) =~= (seq![batch] + mid) + end);
            },
            None => {},
        }
    }
}

/// A burst that ends in a quiet wait (the timeout or the input's closing)
/// is written out in consecutive full batches, and one shorter batch for
/// what is left over.
pub proof fn lemma_burst_in_chunks<T>(
    batch_size: nat,
    pending: Seq<T>,
    events: Seq<T>,
    last: Arrival<T>,
)
    requires
        pending.len() < batch_size,
        last.is_quiet(),
    ensures
        batches_of(batch_size, pending, burst(events).push(last)) == chunks(
            pending + events,
            batch_size,
        ),
        pending_after(batch_size, pending, burst(events).push(last)) == Seq::<T>::empty(),
    decreases events.len(),
{
    let arrivals = burst(events).push(last);
    if events.len() == 0 {
        assert(arrivals[0] == last);
        assert(arrivals.drop_first() =~= Seq::<Arrival<T>>::empty());
        assert(pending + events =~= pending);
        assert(batches_of(batch_size, kept(batch_size, pending, last), arrivals.drop_first())
            =~= Seq::<Seq<T>>::empty());
        assert(pending_after(batch_size, kept(batch_size, pending, last), arrivals.drop_first())
            == kept(batch_size, pending, last));
        if pending.len() > 0 {
            assert(batches_of(batch_size, pending, arrivals) =~= seq![pending]);
        }
    } else {
        let first = arrivals[0];
        let rest = events.drop_first();
        assert(first == Arrival::Item(events[0]));
        assert(arrivals.drop_first() =~= burst(rest).push(last));
        let held = pending.push(events[0]);
        let all = pending + events;
        if held.len() == batch_size {
            lemma_burst_in_chunks(batch_size, Seq::<T>::empty(), rest, last);
            assert(Seq::<T>::empty() + rest =~= rest);
            if rest.len() == 0 {
                assert(all =~= held);
                assert(seq![held] + Seq::<Seq<T>>::empty() =~= seq![held]);
            } else {
                assert(all.take(batch_size as int) =~= held);
                assert(all.skip(batch_size as int) =~= rest);
            }
        } else {
            lemma_burst_in_chunks(batch_size, held, rest, last);
            assert(held + rest =~= all);
        }
    }
}

/// Pieces of `size` are as many as the number of events divided by `size`,
/// rounded up; laid end to end they are the events; each but the last holds
/// `size` events, and the last holds at least one and at most `size`.
pub proof fn lemma_chunks<T>(events: Seq<T>, size: nat)
    requires
        size >= 1,
    ensures
        chunks(events, size).len() == (events.len() + size - 1) / (size as int),
        chunks(events, size).flatten() == events,
        forall|i: int|
            0 <= i < chunks(events, size).len() - 1 ==> (#[trigger] chunks(events, size)[i]).len()
                == size,
        events.len() > 0 ==> 1 <= chunks(events, size).last().len() <= size,
    decreases events.len(),
{
    let pieces = chunks(events, size);
    let n = events.len() as int;
    let d = size as int;
    if events.len() == 0 {
        assert((n + d - 1) / d == 0) by (nonlinear_arith)
            requires
                n == 0,
                d >= 1,
        ;
        assert(pieces.flatten() =~= events);
    } else if events.len() <= size {
        assert((n + d - 1) / d == 1) by (nonlinear_arith)
            requires
                1 <= n <= d,
        ;
        lemma_flatten_cons(events, Seq::<Seq<T>>::empty());
        assert(seq![events] + Seq::<Seq<T>>::empty() =~= seq![events]);
        assert(pieces.flatten() =~= events);
    } else {
        let head = events.take(d);
        let tail = events.skip(d);
        let later = chunks(tail, size);
        lemma_chunks(tail, size);
        assert((n + d - 1) / d == 1 + (n - d + d - 1) / d) by {
            vstd::arithmetic::div_mod::lemma_div_plus_one(n - d + d - 1, d);
        }
        lemma_flatten_cons(head, later);
        assert(head + tail =~= events);
        assert(later.len() >= 1);
        assert(pieces.last() == later.last());
        assert forall|i: int| 0 <= i < pieces.len() - 1 implies (#[trigger] pieces[i]).len()
            == size by {
            if i > 0 {
                assert(pieces[i] == later[i - 1]);
            }
        }
    }
}

proof fn lemma_silence<T>(batch_size: nat, pending: Seq<T>, count: nat)
    requires
        pending.len() < batch_size,
    ensures
        batches_of(batch_size, pending, silence(count)) == if count >= 1 && pending.len() > 0 {
            seq![pending]
        } else {
            Seq::<Seq<T>>::empty()
        },
        pending_after(batch_size, pending, silence::<T>(count)) == if count >= 1 {
            Seq::<T>::empty()
        } else {
            pending
        },
    decreases count,
{
    let waits = silence::<T>(count);
    if count >= 1 {
        let fewer = (count - 1) as nat;
        assert(waits[0] == Arrival::<T>::Timeout);
        assert(waits.drop_first() =~= silence::<T>(fewer));
        assert(kept(batch_size, pending, Arrival::<T>::Timeout) =~= Seq::<T>::empty());
        lemma_silence(batch_size, Seq::<T>::empty(), fewer);
        if pending.len() > 0 {
            assert(seq![pending] + Seq::<Seq<T>>::empty() =~= seq![pending]);
        }
    }
}

/// Events that arrive faster than the timeout, followed by one quiet wait,
/// reach the store in as many insert-many calls as their number divided by
/// the batch size, rounded up. No call holds more than a batch, and the calls
/// laid end to end are the events: each one once, in the order of arrival.
pub proof fn lemma_burst_is_stored<T>(batch_size: nat, events: Seq<T>, last: Arrival<T>)
    requires
        batch_size >= 1,
        last.is_quiet(),
    ensures
        ({
            let batches = batches_of(batch_size, Seq::empty(), burst(events).push(last));
            &&& batches == chunks(events, batch_size)
            &&& batches.len() == (events.len() + batch_size - 1) / (batch_size as int)
            &&& batches.flatten() == events
            &&& forall|i: int| 0 <= i < batches.len() ==> 1 <= (#[trigger] batches[i]).len() <= batch_size
            &&& forall|i: int| 0 <= i < batches.len() - 1 ==> (#[trigger] batches[i]).len() == batch_size
        }),
{
    let batches = batches_of(batch_size, Seq::empty(), burst(events).push(last));
    lemma_burst_in_chunks(batch_size, Seq::empty(), events, last);
    assert(Seq::<T>::empty() + events =~= events);
    lemma_chunks(events, batch_size);
    lemma_replay_conserves(batch_size, Seq::empty(), burst(events).push(last));
}

/// Once no event has come for a timeout, the events held are written out
/// in one batch, all of them and nothing else; further quiet waits write
/// nothing more.
pub proof fn lemma_quiet_wait_flushes_once<T>(
    batch_size: nat,
    pending: Seq<T>,
    before: Seq<Arrival<T>>,
    waits: nat,
)
    requires
        pending.len() < batch_size,
        stays_open(before),
        waits >= 1,
    ensures
        ({
            let held = pending_after(batch_size, pending, before);
            let earlier = batches_of(batch_size, pending, before);
            let batches = batches_of(batch_size, pending, before + silence(waits));
            &&& held.len() > 0 ==> batches == earlier.push(held)
            &&& held.len() == 0 ==> batches == earlier
            &&& pending_after(batch_size, pending, before + silence(waits)) == Seq::<T>::empty()
        }),
{
    let held = pending_after(batch_size, pending, before);
    let earlier = batches_of(batch_size, pending, before);
    lemma_replay_conserves(batch_size, pending, before);
    lemma_replay_append(batch_size, pending, before, silence(waits));
    lemma_silence(batch_size, held, waits);
    if held.len() > 0 {
        assert(earlier + seq![held] =~= earlier.push(held));
    } else {
        assert(earlier + Seq::<Seq<T>>::empty() =~= earlier);
    }
}

/// A batch that has been detached is gone from the consumer, whatever
/// becomes of its write: the buffer is empty, and what is written or held
/// from then on is made of the events that arrive from then on, each once.
pub proof fn lemma_flushed_events_never_return<T>(
    batch_size: nat,
    pending: Seq<T>,
    arrival: Arrival<T>,
    later: Seq<Arrival<T>>,
)
    requires
        pending.len() < batch_size,
        flush_due(batch_size, pending, arrival),
    ensures
        kept(batch_size, pending, arrival) == Seq::<T>::empty(),
        batches_of(batch_size, kept(batch_size, pending, arrival), later).flatten()
            + pending_after(batch_size, kept(batch_size, pending, arrival), later) == events_of(
            later,
        ),
{
    lemma_replay_conserves(batch_size, Seq::<T>::empty(), later);
    assert(Seq::<T>::empty() + events_of(later) =~= events_of(later));
}

/// When the input closes on fewer events than a batch, they are written out
/// in one final insert-many that holds all of them; on none, nothing is
/// written.
pub proof fn lemma_close_drains<T>(batch_size: nat, events: Seq<T>)
    requires
        events.len() < batch_size,
    ensures
        batches_of(batch_size, Seq::empty(), burst(events).push(Arrival::Closed)) == if events.len()
            > 0 {
            seq![events]
        } else {
            Seq::<Seq<T>>::empty()
        },
        pending_after(batch_size, Seq::empty(), burst(events).push(Arrival::Closed)) == Seq::<
            T,
        >::empty(),
{
    lemma_burst_in_chunks(batch_size, Seq::empty(), events, Arrival::Closed);
    assert(Seq::<T>::empty() + events =~= events);
}

/// Each batch as a sequence.
pub open spec fn batch_views<T>(batches: Seq<Vec<T>>) -> Seq<Seq<T>> {
    Seq::new(batches.len(), |i: int| batches[i]@)
}

impl<T> EventBuffer<T> {
    /// Runs the consumer over a recorded sequence of arrivals, as its loop
    /// would take them in, and up to the first `Closed`. Returns the batches
    /// that it detaches, first to last.
    pub fn replay(&mut self, arrivals: Vec<Arrival<T>>) -> (batches: Vec<Vec<T>>)
        requires
            old(self).wf(),
        ensures
            final(self).wf(),
            final(self).batch_size() == old(self).batch_size(),
            batch_views(batches@) == batches_of(
                old(self).batch_size(),
                old(self).pending(),
                arrivals@,
            ),
            final(self).pending() == pending_after(
                old(self).batch_size(),
                old(self).pending(),
                arrivals@,
            ),
    {
        let ghost size = self.batch_size();
        let ghost start = self.pending();
        let ghost all = arrivals@;
        let mut batches: Vec<Vec<T>> = Vec::new();
        let mut done = false;
        proof {
            assert(all.skip(0) =~= all);
            assert(batch_views(batches@) + batches_of(size, start, all) =~= batches_of(
                size,
                start,
                all,
            ));
        }
        for arrival in iter: arrivals.into_iter()
            invariant
                self.wf(),
                self.batch_size() == size,
                iter.seq() == all,
                done ==> batch_views(batches@) == batches_of(size, start, all),
                done ==> self.pending() == pending_after(size, start, all),
                !done ==> batch_views(batches@) + batches_of(
                    size,
                    self.pending(),
                    all.skip(iter.index() as int),
                ) == batches_of(size, start, all),
                !done ==> pending_after(size, self.pending(), all.skip(iter.index() as int))
                    == pending_after(size, start, all),
        {
            if !done {
                let ghost rest = all.skip(iter.index() as int);
                let ghost held = self.pending();
                let ghost before = batch_views(batches@);
                proof {
                    assert(rest[0] == arrival);
                    assert(rest.drop_first() =~= all.skip(iter.index() + 1));
                }
                let out = self.step(arrival);
                if let Some(batch) = out.batch {
                    batches.push(batch);
                    proof {
                        assert(batch_views(batches@) =~= before + seq![batch@]);
                        let later = if arrival is Closed {
                            Seq::<Seq<T>>::empty()
                        } else {
                            batches_of(size, self.pending(), rest.drop_first())
                        };
                        assert((before + seq![batch@]) + later =~= before + (seq![batch@] + later));
                    }
                }
                done = out.done;
                proof {
                    if done {
                        assert(batch_views(batches@) + Seq::<Seq<T>>::empty() =~= batch_views(
                            batches@,
                        ));
                    }
                }
            }
        }
        proof {
            if !done {
                assert(all.skip(all.len() as int) =~= Seq::<Arrival<T>>::empty());
                assert(batch_views(batches@) + Seq::<Seq<T>>::empty() =~= batch_views(batches@));
            }
        }
        batches
    }
}

} // verus!
