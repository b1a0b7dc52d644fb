//! The server's replay buffer for API events.
//!
//! Events are retained so a subscriber that polls periodically can pick up
//! everything that happened between its polls. The buffer is bounded, so a
//! subscriber that falls far enough behind cannot be served — and the important
//! property is that it is *told* so, rather than handed a shorter answer that
//! looks complete.

use std::collections::VecDeque;

use vstd::prelude::*;

use super::schema::events::{EventEnvelope, EventKind};

verus! {

/// The replay buffer. Every event pushed gets the next sequence number, from 1.
///
/// This is the one buffer that all readers of a server look into. How they share
/// it is up to the server; what each of them finds in it is said here.
#[derive(Debug)]
pub struct EventHub {
    next_sequence: u64,
    /// Retained events with their sequence numbers, oldest first.
    events: VecDeque<(u64, EventEnvelope)>,
}

/// The contents of an [`EventHub`]: how many events there were, and the latest
/// of them that are retained, oldest first.
#[verifier::ext_equal]
pub struct HubView {
    pub pushed: nat,
    pub retained: Seq<super::schema::events::EventView>,
}

impl HubView {
    /// A hub no event was pushed to.
    pub open spec fn empty() -> HubView {
        HubView { pushed: 0, retained: Seq::empty() }
    }

    /// The hub retains exactly the latest events there is room for.
    pub open spec fn full(self) -> bool {
        self.retained.len() == if self.pushed < EventHub::MAX_EVENTS {
            self.pushed
        } else {
            EventHub::MAX_EVENTS as nat
        }
    }

    /// The sequence number of the latest event that is no longer retained, 0
    /// when none was evicted.
    pub open spec fn evicted(self) -> int {
        self.pushed - self.retained.len()
    }

    /// The hub once one more event was pushed.
    pub open spec fn push(self, event: super::schema::events::EventView) -> HubView {
        HubView {
            pushed: self.pushed + 1,
            retained: if self.retained.len() >= EventHub::MAX_EVENTS {
                self.retained.push(event).skip(1)
            } else {
                self.retained.push(event)
            },
        }
    }

    /// The retained events after `sequence`, oldest first.
    pub open spec fn after(self, sequence: int) -> Seq<super::schema::events::EventView> {
        if sequence <= self.evicted() {
            self.retained
        } else if sequence >= self.pushed {
            Seq::empty()
        } else {
            self.retained.skip(sequence - self.evicted())
        }
    }

    /// The retained events after `sequence` with their sequence numbers, oldest
    /// first.
    pub open spec fn entries(self, sequence: int) -> Seq<(int, super::schema::events::EventView)> {
        let events = self.after(sequence);
        Seq::new(events.len(), |i: int| (self.pushed - events.len() + 1 + i, events[i]))
    }
}

/// The contents of a list of numbered events.
pub open spec fn entries_view(entries: Seq<(u64, EventEnvelope)>) -> Seq<
    (int, super::schema::events::EventView),
> {
    entries.map_values(|e: (u64, EventEnvelope)| (e.0 as int, e.1@))
}

/// The last `n` of a sequence, or all of it when it is shorter.
pub open spec fn last_of<T>(s: Seq<T>, n: int) -> Seq<T> {
    if s.len() <= n {
        s
    } else {
        s.skip(s.len() - n)
    }
}

/// The event is of this kind.
pub open spec fn of_kind(kind: EventKind) -> spec_fn(super::schema::events::EventView) -> bool {
    |e: super::schema::events::EventView| e.event == kind
}

/// How many of `events`, from the first, one poll for `kind` looks at when it
/// has looked at `n`: as many as there are, or until it holds a full batch.
pub open spec fn scanned(
    events: Seq<super::schema::events::EventView>,
    kind: EventKind,
    n: nat,
) -> nat
    decreases events.len() - n,
{
    if n >= events.len() || events.take(n as int).filter(of_kind(kind)).len() >= EventHub::MAX_BATCH {
        n
    } else {
        scanned(events, kind, n + 1)
    }
}

/// What a subscriber gets back when it asks for what it missed.
#[derive(Debug, PartialEq, Eq)]
pub enum EventBatch {
    /// Everything matching between the requested sequence and `last_sequence`,
    /// up to the batch limit.
    Delivered {
        events: Vec<EventEnvelope>,
        /// Where the subscriber's cursor should now sit. Advances past events
        /// that did not match, so a subscriber filtering a rare kind does not
        /// rescan the whole buffer on every poll.
        last_sequence: u64,
    },
    /// Events the subscriber had not read were evicted before it asked.
    ///
    /// Reported rather than papered over: a shorter answer is indistinguishable
    /// from a quiet period.
    Gap {
        /// The oldest sequence still retained. Everything between the
        /// subscriber's cursor and this is gone.
        oldest_retained: u64,
        /// Where to resume from, having acknowledged the gap.
        resume_at: u64,
    },
}

/// The contents of a list of events.
pub open spec fn events_view(events: Seq<EventEnvelope>) -> Seq<super::schema::events::EventView> {
    events.map_values(|e: EventEnvelope| e@)
}

/// The contents of an [`EventBatch`].
pub enum BatchView {
    Delivered { events: Seq<super::schema::events::EventView>, last_sequence: int },
    Gap { oldest_retained: int, resume_at: int },
}

/// A copy of a list of events.
fn clone_events(list: &Vec<EventEnvelope>) -> (r: Vec<EventEnvelope>)
    ensures
        events_view(r@) == events_view(list@),
{
    let mut out: Vec<EventEnvelope> = Vec::new();
    let mut i: usize = 0;
    while i < list.len()
        invariant
            i <= list.len(),
            out@.len() == i,
            forall|j: int| 0 <= j < i ==> (#[trigger] out@[j])@ == list@[j]@,
        decreases list.len() - i,
    {
        out.push(list[i].clone());
        i += 1;
    }
    assert(events_view(out@) =~= events_view(list@));
    out
}

impl Clone for EventBatch {
    fn clone(&self) -> (r: Self)
        ensures
            r@ == self@,
    {
        match self {
            EventBatch::Delivered { events, last_sequence } => EventBatch::Delivered {
                events: clone_events(events),
                last_sequence: *last_sequence,
            },
            EventBatch::Gap { oldest_retained, resume_at } => EventBatch::Gap {
                oldest_retained: *oldest_retained,
                resume_at: *resume_at,
            },
        }
    }
}

impl View for EventBatch {
    type V = BatchView;

    open spec fn view(&self) -> BatchView {
        match self {
            EventBatch::Delivered { events, last_sequence } => BatchView::Delivered {
                events: events_view(events@),
                last_sequence: *last_sequence as int,
            },
            EventBatch::Gap { oldest_retained, resume_at } => BatchView::Gap {
                oldest_retained: *oldest_retained as int,
                resume_at: *resume_at as int,
            },
        }
    }
}

/// The answer to a poll for `kind` by a subscriber that has read up to
/// `sequence`: nothing when it is current, a gap when what comes next for it was
/// evicted, and the next batch otherwise.
pub open spec fn polled(hub: HubView, sequence: int, kind: EventKind) -> Option<BatchView> {
    if sequence >= hub.pushed {
        None
    } else if sequence < hub.evicted() {
        Some(BatchView::Gap { oldest_retained: hub.evicted() + 1, resume_at: hub.pushed as int })
    } else {
        let tail = hub.after(sequence);
        let n = scanned(tail, kind, 0);
        Some(
            BatchView::Delivered {
                events: tail.take(n as int).filter(of_kind(kind)),
                last_sequence: sequence + n,
            },
        )
    }
}

impl View for EventHub {
    type V = HubView;

    closed spec fn view(&self) -> HubView {
        HubView {
            pushed: self.next_sequence as nat,
            retained: self.events@.map_values(|e: (u64, EventEnvelope)| e.1@),
        }
    }
}

impl EventHub {
    /// How many events are retained for replay.
    ///
    /// A subscriber further behind than this cannot be served what it missed,
    /// which is why falling off the end is reported rather than absorbed.
    pub const MAX_EVENTS: usize = 512;

    /// How many matching events one poll may take.
    pub const MAX_BATCH: usize = 64;

    #[verifier::type_invariant]
    spec fn numbered(self) -> bool {
        &&& self@.full()
        &&& forall|i: int|
            0 <= i < self.events@.len() ==> (#[trigger] self.events@[i]).0 == self@.evicted() + 1
                + i
    }

    /// Records an event under the next sequence number; the oldest retained
    /// event makes room when the buffer is full.
    pub fn push(&mut self, event: EventEnvelope)
        requires
            old(self)@.pushed < u64::MAX,
        ensures
            final(self)@ == old(self)@.push(event@),
            final(self)@.full(),
    {
        proof {
            use_type_invariant(&*self);
        }
        let sequence = self.next_sequence + 1;
        let mut emptied = EventHub { next_sequence: 0, events: VecDeque::new() };
        assert(emptied@ =~= HubView::empty());
        std::mem::swap(&mut emptied, self);
        let mut events = emptied.events;
        events.push_back((sequence, event));
        if events.len() > EventHub::MAX_EVENTS {
            let _ = events.pop_front();
        }
        let ghost kept = events@.map_values(|e: (u64, EventEnvelope)| e.1@);
        assert(kept =~= old(self)@.push(event@).retained);
        *self = EventHub { next_sequence: sequence, events };
    }

    /// The retained events after `sequence`, with their sequence numbers.
    pub fn events_after(&self, sequence: u64) -> (r: Vec<(u64, EventEnvelope)>)
        ensures
            entries_view(r@) == self@.entries(sequence as int),
            self@.full(),
    {
        proof {
            use_type_invariant(&*self);
        }
        let mut out: Vec<(u64, EventEnvelope)> = Vec::new();
        let mut i: usize = 0;
        let ghost evicted = self@.evicted();
        let ghost from: int = if sequence <= evicted {
            0
        } else if sequence >= self@.pushed {
            self@.retained.len() as int
        } else {
            sequence - evicted
        };
        while i < self.events.len()
            invariant
                i <= self.events.len(),
                self.numbered(),
                evicted == self@.evicted(),
                0 <= from <= self@.retained.len(),
                from == if sequence <= evicted {
                    0
                } else if sequence >= self@.pushed {
                    self@.retained.len() as int
                } else {
                    sequence - evicted
                },
                self.events@.len() == self@.retained.len(),
                out@.len() == if i <= from {
                    0
                } else {
                    i - from
                },
                forall|j: int|
                    0 <= j < out@.len() ==> (#[trigger] out@[j]).1@ == self@.retained[from + j]
                        && out@[j].0 == evicted + 1 + from + j,
            decreases self.events.len() - i,
        {
            assert(self@.retained[i as int] == self.events@[i as int].1@);
            let entry = &self.events[i];
            assert(entry.0 == evicted + 1 + i);
            if entry.0 > sequence {
                out.push((entry.0, entry.1.clone()));
            }
            i += 1;
        }
        assert(entries_view(out@) =~= self@.entries(sequence as int));
        out
    }

    /// Takes up to [`EventHub::MAX_BATCH`] events of `kind` recorded after `sequence`, or
    /// reports that some were lost first.
    pub fn matching_after(&self, sequence: u64, kind: EventKind) -> (r: Option<EventBatch>)
        ensures
            match r {
                Some(batch) => polled(self@, sequence as int, kind) == Some(batch@),
                None => polled(self@, sequence as int, kind) is None,
            },
            self@.full(),
    {
        proof {
            use_type_invariant(&*self);
        }
        if sequence >= self.next_sequence {
            return None;
        }
        match self.gap_after(sequence) {
            Some(gap) => {
                return Some(gap);
            },
            None => {},
        }
        let ghost tail = self@.after(sequence as int);
        let ghost from = sequence - self@.evicted();
        let mut events: Vec<EventEnvelope> = Vec::new();
        let mut last_sequence = sequence;
        let mut i: usize = 0;
        proof {
            assert(tail =~= self@.retained.skip(from));
            reveal(Seq::filter);
            assert(tail.take(0) =~= Seq::empty());
            assert(events_view(events@) =~= tail.take(0).filter(of_kind(kind)));
        }
        while i < self.events.len() && events.len() < EventHub::MAX_BATCH
            invariant
                i <= self.events.len(),
                self.numbered(),
                self.events@.len() == self@.retained.len(),
                from == sequence - self@.evicted(),
                0 <= from < self@.retained.len(),
                tail == self@.retained.skip(from),
                sequence <= last_sequence,
                last_sequence == if i <= from {
                    sequence as int
                } else {
                    self@.evicted() + i
                },
                events_view(events@) == tail.take(last_sequence - sequence).filter(of_kind(kind)),
                scanned(tail, kind, 0) == scanned(tail, kind, (last_sequence - sequence) as nat),
            decreases self.events.len() - i,
        {
            assert(self@.retained[i as int] == self.events@[i as int].1@);
            let entry = &self.events[i];
            assert(entry.0 == self@.evicted() + 1 + i);
            if entry.0 > sequence {
                let ghost n = last_sequence - sequence;
                assert(tail[n] == entry.1@);
                proof {
                    reveal(Seq::filter);
                    assert(tail.take(n + 1).drop_last() =~= tail.take(n));
                    assert(events_view(events@).len() == events@.len());
                }
                last_sequence = entry.0;
                if entry.1.event == kind {
                    let ghost before = events@;
                    let copy = entry.1.clone();
                    events.push(copy);
                    assert(events_view(before.push(copy)) =~= events_view(before).push(copy@));
                }
            }
            i += 1;
        }
        assert(events_view(events@).len() == events@.len());
        assert(last_sequence > sequence) by {
            if last_sequence == sequence {
                reveal(Seq::filter);
                assert(tail.take(0) =~= Seq::empty());
            }
        }
        if last_sequence > sequence {
            Some(EventBatch::Delivered { events, last_sequence })
        } else {
            None
        }
    }

    /// How many events there were.
    pub fn current_sequence(&self) -> (r: u64)
        ensures
            r == self@.pushed,
            self@.full(),
    {
        proof {
            use_type_invariant(&*self);
        }
        self.next_sequence
    }

    /// Whether anything after `sequence` was evicted before it could be read.
    fn gap_after(&self, sequence: u64) -> (r: Option<EventBatch>)
        requires
            sequence < self@.pushed,
        ensures
            match r {
                Some(gap) => sequence < self@.evicted() && gap@ == (BatchView::Gap {
                    oldest_retained: self@.evicted() + 1,
                    resume_at: self@.pushed as int,
                }),
                None => sequence >= self@.evicted(),
            },
    {
        proof {
            use_type_invariant(&*self);
        }
        if self.events.len() == 0 {
            return None;
        }
        let oldest_retained = self.events[0].0;
        assert(self.events@[0].0 == self@.evicted() + 1);
        // The next event this subscriber wants is the one after `sequence`. If
        // the buffer no longer reaches back that far, the events in between are
        // gone.
        if oldest_retained > sequence.saturating_add(1) {
            Some(EventBatch::Gap { oldest_retained, resume_at: self.next_sequence })
        } else {
            None
        }
    }
}

impl Default for EventHub {
    fn default() -> (r: Self)
        ensures
            r@ == HubView::empty(),
    {
        let r = EventHub { next_sequence: 0, events: VecDeque::new() };
        assert(r@ =~= HubView::empty());
        r
    }
}

proof fn lemma_scanned(events: Seq<super::schema::events::EventView>, kind: EventKind, n: nat)
    requires
        n <= events.len(),
        events.take(n as int).filter(of_kind(kind)).len() <= EventHub::MAX_BATCH,
    ensures
        n <= scanned(events, kind, n) <= events.len(),
        events.take(scanned(events, kind, n) as int).filter(of_kind(kind)).len() <= EventHub::MAX_BATCH,
        scanned(events, kind, n) < events.len() ==> events.take(
            scanned(events, kind, n) as int,
        ).filter(of_kind(kind)).len() == EventHub::MAX_BATCH,
        n < events.len() && events.take(n as int).filter(of_kind(kind)).len() < EventHub::MAX_BATCH
            ==> scanned(events, kind, n) > n,
    decreases events.len() - n,
{
    if !(n >= events.len() || events.take(n as int).filter(of_kind(kind)).len() >= EventHub::MAX_BATCH) {
        reveal(Seq::filter);
        assert(events.take(n as int + 1).drop_last() =~= events.take(n as int));
        lemma_scanned(events, kind, n + 1);
    }
}

/// A poll that is served advances, takes at most a full batch, and leaves
/// exactly the rest for the next: what it delivers followed by what matches
/// after its last sequence is everything that matches after the requested one.
pub proof fn law_polling_loses_nothing(hub: HubView, sequence: int, kind: EventKind)
    requires
        hub.full(),
        hub.evicted() <= sequence < hub.pushed,
    ensures
        polled(hub, sequence, kind) matches Some(BatchView::Delivered { events, last_sequence })
            && sequence < last_sequence <= hub.pushed && events.len() <= EventHub::MAX_BATCH && (
        last_sequence < hub.pushed ==> events.len() == EventHub::MAX_BATCH) && events + hub.after(
            last_sequence,
        ).filter(of_kind(kind)) == hub.after(sequence).filter(of_kind(kind)),
{
    let tail = hub.after(sequence);
    assert(tail =~= hub.retained.skip(sequence - hub.evicted()));
    let n = scanned(tail, kind, 0);
    assert(tail.take(0).filter(of_kind(kind)).len() == 0) by {
        reveal(Seq::filter);
        assert(tail.take(0) =~= Seq::empty());
    }
    lemma_scanned(tail, kind, 0);
    let rest = hub.after(sequence + n);
    assert(rest =~= tail.skip(n as int));
    assert(tail =~= tail.take(n as int) + tail.skip(n as int));
    Seq::filter_distributes_over_add(tail.take(n as int), tail.skip(n as int), of_kind(kind));
}

/// A subscriber is told of a gap exactly when an event it has not read was
/// evicted, and is current once it resumes where the gap says.
pub proof fn law_gaps_are_reported_and_not_repeated(hub: HubView, sequence: int, kind: EventKind)
    requires
        hub.full(),
        0 <= sequence,
    ensures
        (polled(hub, sequence, kind) matches Some(BatchView::Gap { .. })) <==> sequence
            < hub.evicted(),
        polled(hub, sequence, kind) matches Some(BatchView::Gap { oldest_retained, resume_at })
            ==> oldest_retained == hub.evicted() + 1 && polled(hub, resume_at, kind) is None,
{
}

/// A push is the latest event for whoever reads the hub: it gets the next sequence
/// number, what is retained is the latest of what was there and it, and every
/// reader, wherever it stands, finds it last and everything else as before.
pub proof fn law_every_reader_sees_a_push(hub: HubView, event: super::schema::events::EventView)
    requires
        hub.full(),
    ensures
        ({
            let after = hub.push(event);
            &&& after.full()
            &&& after.pushed == hub.pushed + 1
            &&& after.entries(0) == last_of(
                hub.entries(0).push((hub.pushed as int + 1, event)),
                EventHub::MAX_EVENTS as int,
            )
            &&& forall|reader: int|
                #![trigger after.entries(reader)]
                0 <= reader <= hub.pushed ==> after.entries(reader).len() > 0 && after.entries(
                    reader,
                ).last() == (hub.pushed as int + 1, event)
            &&& forall|reader: int|
                #![trigger after.entries(reader)]
                after.evicted() <= reader <= hub.pushed ==> after.entries(reader) == hub.entries(
                    reader,
                ).push((hub.pushed as int + 1, event))
        }),
{
    let after = hub.push(event);
    let number: int = hub.pushed as int + 1;
    assert(after.entries(0) =~= last_of(
        hub.entries(0).push((number, event)),
        EventHub::MAX_EVENTS as int,
    ));
    assert forall|reader: int|
        #![trigger after.entries(reader)]
        0 <= reader <= hub.pushed implies after.entries(reader).len() > 0 && after.entries(
        reader,
    ).last() == (number, event) by {
        assert(after.after(reader).last() == event);
    }
    assert forall|reader: int|
        #![trigger after.entries(reader)]
        after.evicted() <= reader <= hub.pushed implies after.entries(reader) == hub.entries(
        reader,
    ).push((number, event)) by {
        assert(after.after(reader) =~= hub.after(reader).push(event));
        assert(after.entries(reader) =~= hub.entries(reader).push((number, event)));
    }
}

/// The buffer stays bounded and never gives up an event it has room for: what is
/// retained after a push is the latest of everything pushed.
pub proof fn law_the_buffer_stays_bounded(hub: HubView, event: super::schema::events::EventView)
    requires
        hub.full(),
    ensures
        hub.push(event).full(),
        hub.push(event).retained.len() <= EventHub::MAX_EVENTS,
        hub.push(event).retained.last() == event,
        hub.pushed < EventHub::MAX_EVENTS ==> hub.push(event).evicted() == 0,
{
}

} // verus!
