//! Micro-batching of stream events before they are written to ClickHouse:
//! events are buffered and handed out in batches, when the buffer is full,
//! on every tick of the flush interval, and when the stream closes.

use vstd::prelude::*;

verus! {

/// Events per batch write of the ingest stream: about ten thousand.
pub const BATCH_CAPACITY: usize = 10000;

/// Seconds between two ticks of the flush interval.
pub const FLUSH_INTERVAL_SECS: u64 = 1;

/// Events waiting to be written, handed out in batches of at most
/// `capacity()` events.
pub struct EventBatch<T> {
    items: Vec<T>,
    capacity: usize,
}

impl<T> View for EventBatch<T> {
    type V = Seq<T>;

    closed spec fn view(&self) -> Seq<T> {
        self.items@
    }
}

impl<T> EventBatch<T> {
    /// Number of events at which a batch is handed out.
    pub closed spec fn spec_capacity(&self) -> nat {
        self.capacity as nat
    }
}

/// What the batching loop can observe.
pub enum LoopEvent<T> {
    /// An event arrived on the stream.
    Received(T),
    /// The stream closed: no event will arrive any more.
    Closed,
    /// The flush interval elapsed.
    Tick,
}

/// What the batching loop must do next: write `flush` if there is one, then
/// stop if `stop` is set.
pub struct LoopAction<T> {
    pub flush: Option<Vec<T>>,
    pub stop: bool,
}

pub open spec fn opt_view<T>(o: Option<Vec<T>>) -> Option<Seq<T>> {
    match o {
        Some(v) => Some(v@),
        None => None,
    }
}

/// All of `pending` as one batch, unless it is empty.
pub open spec fn drain_spec<T>(pending: Seq<T>) -> Option<Seq<T>> {
    if pending.len() == 0 {
        None
    } else {
        Some(pending)
    }
}

/// One step of the batching loop with batches of `capacity` events: the
/// events left waiting, the batch to write, and whether the loop ends.
pub open spec fn step_spec<T>(capacity: nat, pending: Seq<T>, e: LoopEvent<T>) -> (Seq<T>, Option<Seq<T>>, bool) {
    match e {
        LoopEvent::Received(item) => {
            let all = pending.push(item);
            if all.len() >= capacity {
                (Seq::empty(), Some(all), false)
            } else {
                (all, None, false)
            }
        },
        LoopEvent::Closed => (Seq::empty(), drain_spec(pending), true),
        LoopEvent::Tick => (Seq::empty(), drain_spec(pending), false),
    }
}

impl<T> EventBatch<T> {
    /// An empty buffer with batches of `BATCH_CAPACITY` events.
    pub fn new() -> (b: EventBatch<T>)
        ensures
            b@ == Seq::<T>::empty(),
            b.spec_capacity() == BATCH_CAPACITY,
    {
        EventBatch { items: Vec::new(), capacity: BATCH_CAPACITY }
    }

    /// An empty buffer with batches of `capacity` events.
    pub fn with_capacity(capacity: usize) -> (b: EventBatch<T>)
        requires
            capacity > 0,
        ensures
            b@ == Seq::<T>::empty(),
            b.spec_capacity() == capacity,
    {
        EventBatch { items: Vec::new(), capacity }
    }

    /// Number of events at which a batch is handed out.
    pub fn capacity(&self) -> (n: usize)
        ensures
            n == self.spec_capacity(),
    {
        self.capacity
    }

    /// Number of events waiting.
    pub fn len(&self) -> (n: usize)
        ensures
            n == self@.len(),
    {
        self.items.len()
    }

    /// Hands out every waiting event as one batch, unless none waits.
    pub fn drain(&mut self) -> (batch: Option<Vec<T>>)
        ensures
            final(self)@ == Seq::<T>::empty(),
            final(self).spec_capacity() == old(self).spec_capacity(),
            opt_view(batch) == drain_spec(old(self)@),
    {
        if self.items.len() == 0 {
            None
        } else {
            Some(self.items.split_off(0))
        }
    }

    /// Buffers `item`; hands out the whole buffer once it holds
    /// `capacity()` events.
    pub fn push(&mut self, item: T) -> (full: Option<Vec<T>>)
        ensures
            final(self).spec_capacity() == old(self).spec_capacity(),
            (final(self)@, opt_view(full)) == ({
                let s = step_spec(old(self).spec_capacity(), old(self)@, LoopEvent::Received(item));
                (s.0, s.1)
            }),
    {
        self.items.push(item);
        if self.items.len() >= self.capacity {
            Some(self.items.split_off(0))
        } else {
            None
        }
    }

    /// Reacts to what the batching loop observed.
    pub fn step(&mut self, event: LoopEvent<T>) -> (action: LoopAction<T>)
        ensures
            final(self).spec_capacity() == old(self).spec_capacity(),
            (final(self)@, opt_view(action.flush), action.stop) == step_spec(
                old(self).spec_capacity(),
                old(self)@,
                event,
            ),
    {
        match event {
            LoopEvent::Received(item) => LoopAction { flush: self.push(item), stop: false },
            LoopEvent::Closed => LoopAction { flush: self.drain(), stop: true },
            LoopEvent::Tick => LoopAction { flush: self.drain(), stop: false },
        }
    }
}

// ---------------------------------------------------------------------------
// What a whole run of the loop does
// ---------------------------------------------------------------------------

/// The events of a run that carry an item, in order.
pub open spec fn received<T>(events: Seq<LoopEvent<T>>) -> Seq<T>
    decreases events.len(),
{
    if events.len() == 0 {
        Seq::empty()
    } else {
        received(events.drop_last()) + match events.last() {
            LoopEvent::Received(item) => seq![item],
            _ => Seq::empty(),
        }
    }
}

/// The batches written during a run, and the events left waiting.
pub open spec fn run_spec<T>(capacity: nat, pending: Seq<T>, events: Seq<LoopEvent<T>>) -> (Seq<Seq<T>>, Seq<T>)
    decreases events.len(),
{
    if events.len() == 0 {
        (Seq::empty(), pending)
    } else {
        let (batches, waiting) = run_spec(capacity, pending, events.drop_last());
        let (next, flush, _stop) = step_spec(capacity, waiting, events.last());
        match flush {
            Some(b) => (batches.push(b), next),
            None => (batches, next),
        }
    }
}

/// The batches one after the other.
pub open spec fn concat_batches<T>(batches: Seq<Seq<T>>) -> Seq<T>
    decreases batches.len(),
{
    if batches.len() == 0 {
        Seq::empty()
    } else {
        concat_batches(batches.drop_last()) + batches.last()
    }
}

/// No event is lost, duplicated or reordered: the written batches followed by
/// the events still waiting are exactly the events that were waiting at the
/// start followed by those received, in order. Every written batch is
/// non-empty and holds at most `capacity` events, and fewer than `capacity`
/// events are ever left waiting.
pub proof fn lemma_batching_preserves_events<T>(capacity: nat, pending: Seq<T>, events: Seq<LoopEvent<T>>)
    requires
        pending.len() < capacity,
    ensures
        concat_batches(run_spec(capacity, pending, events).0) + run_spec(capacity, pending, events).1 == pending
            + received(events),
        forall|i: int|
            0 <= i < run_spec(capacity, pending, events).0.len() ==> 0 < (
            #[trigger] run_spec(capacity, pending, events).0[i]).len() <= capacity,
        run_spec(capacity, pending, events).1.len() < capacity,
    decreases events.len(),
{
    if events.len() > 0 {
        let init = events.drop_last();
        lemma_batching_preserves_events(capacity, pending, init);
        let (batches, waiting) = run_spec(capacity, pending, init);
        let e = events.last();
        let (next, flush, _stop) = step_spec(capacity, waiting, e);
        let r = run_spec(capacity, pending, events);
        let before = concat_batches(batches);
        assert(before + waiting == pending + received(init));
        match e {
            LoopEvent::Received(item) => {
                assert(received(events) =~= received(init).push(item));
                assert(pending + received(events) =~= (pending + received(init)).push(item));
                assert(before + waiting.push(item) =~= (before + waiting).push(item));
            },
            _ => {
                assert(received(events) =~= received(init));
            },
        }
        match flush {
            Some(b) => {
                assert(r.0 == batches.push(b));
                assert(r.0.drop_last() =~= batches);
                assert(concat_batches(r.0) == before + b);
                assert(r.1 == next);
                assert(next == Seq::<T>::empty());
                assert(before + b + next =~= before + b);
                assert forall|i: int| 0 <= i < r.0.len() implies 0 < (#[trigger] r.0[i]).len()
                    <= capacity by {
                    if i < batches.len() {
                        assert(r.0[i] == batches[i]);
                    }
                }
            },
            None => {
                assert(r.0 == batches);
                assert(r.1 == next);
                if !(e is Received) {
                    assert(waiting.len() == 0);
                    assert(before + next =~= before + waiting);
                }
            },
        }
    }
}

/// Once the stream has closed, nothing is left waiting: every event received
/// has been written.
pub proof fn lemma_close_drains<T>(capacity: nat, pending: Seq<T>, events: Seq<LoopEvent<T>>)
    requires
        events.len() > 0,
        events.last() is Closed,
    ensures
        run_spec(capacity, pending, events).1 == Seq::<T>::empty(),
{
}

/// One step of the loop loses and invents no event, stops only when the
/// stream closes, and writes only when the buffer fills, the interval ticks
/// or the stream closes: the events left waiting followed by the batch
/// written are exactly the events waiting before followed by the one just
/// received (if any); a received event that leaves the buffer short of
/// `capacity` is only buffered; a tick or the close leaves nothing waiting.
pub proof fn lemma_step_keeps_events<T>(capacity: nat, pending: Seq<T>, e: LoopEvent<T>)
    ensures
        ({
            let (next, flush, stop) = step_spec(capacity, pending, e);
            let written = match flush {
                Some(b) => b,
                None => Seq::<T>::empty(),
            };
            let arrived = match e {
                LoopEvent::Received(item) => seq![item],
                _ => Seq::<T>::empty(),
            };
            &&& written + next == pending + arrived
            &&& stop <==> e is Closed
            &&& flush matches Some(b) ==> b.len() > 0
            &&& (e is Received && pending.len() + 1 < capacity) ==> flush is None
            &&& (e is Received && pending.len() + 1 >= capacity) ==> next.len() == 0
            &&& !(e is Received) ==> next.len() == 0
        }),
{
    let (next, flush, stop) = step_spec(capacity, pending, e);
    match e {
        LoopEvent::Received(item) => {
            assert(Seq::<T>::empty() + pending.push(item) =~= pending + seq![item]);
            assert(pending.push(item) + Seq::<T>::empty() =~= pending + seq![item]);
        },
        _ => {
            assert(pending + Seq::<T>::empty() =~= pending);
            assert(Seq::<T>::empty() + Seq::<T>::empty() =~= pending + Seq::<T>::empty()
                || pending.len() > 0);
        },
    }
}

} // verus!
