//! Timer readiness queue.

use vstd::prelude::*;

use crate::clock::{instant_now, nanos_since, signed_span};
use crate::deadlines::{count_expired, deadline_added, deadline_le, lemma_count_expired, lemma_sorted_expired, first_with_id, Deadline, DeadlineQueue, sorted};
use crate::event::{Event, Id, Ready, Sink, Source, poll_succeeded, sink_extended};
use crate::time::Duration;

verus! {

/// The timer event of the deadline `d`.
pub open spec fn timer_event(d: Deadline) -> Event {
    Event::new_spec(Id(d.id), Ready::from_bits_spec(crate::event::TIMER_BIT))
}

/// The number of deadlines of `pending` that a poll at `now` into a sink
/// with capacity `capacity` takes: the expired ones, as many as fit.
pub open spec fn taken(pending: Seq<Deadline>, now: int, capacity: crate::event::Capacity) -> int {
    capacity.min_spec(count_expired(pending, now) as int)
}

/// The timeout until the first deadline of `pending` at `now`: none where
/// there is no deadline, zero where it has expired, the time left otherwise.
pub open spec fn timeout_until(pending: Seq<Deadline>, now: int) -> Option<int> {
    if pending.len() == 0 {
        None
    } else if pending[0].deadline <= now {
        Some(0)
    } else {
        Some(pending[0].deadline - now)
    }
}

/// `t` is the timeout of `timeout_until(pending, now)` as a `Duration`:
/// `None` without deadlines, the time until the first deadline otherwise,
/// cut at the longest span a `Duration` holds.
pub open spec fn timeout_given(pending: Seq<Deadline>, now: int, t: Option<Duration>) -> bool {
    match timeout_until(pending, now) {
        None => t is None,
        Some(n) => t matches Some(d) && d.nanos() == (if n <= crate::time::max_nanos() {
            n
        } else {
            crate::time::max_nanos() as int
        }),
    }
}

/// A poll at `now` took the passed deadlines at the front of `before`, as many
/// as the sink had capacity left for, leaving `after`, and added their timer
/// events, in order, to the sink.
pub open spec fn polled_at<ES: Sink>(
    before: Seq<Deadline>,
    after: Seq<Deadline>,
    sink_before: ES,
    sink_after: ES,
    now: int,
) -> bool {
    let k = taken(before, now, sink_before.capacity_spec());
    &&& sink_after.received() == sink_before.received() + before.take(k).map_values(
        |d: Deadline| timer_event(d),
    )
    &&& after == before.skip(k)
    &&& sink_after.capacity_spec() == sink_before.capacity_spec().after(k)
}

/// A poll never gives the event of a deadline that has not passed, and gives
/// the events in the order of their deadlines; where the sink had room for
/// all passed deadlines, none of the deadlines left has passed.
pub proof fn lemma_polled_at_expired<ES: Sink>(
    before: Seq<Deadline>,
    after: Seq<Deadline>,
    sink_before: ES,
    sink_after: ES,
    now: int,
)
    requires
        sorted(before),
        polled_at(before, after, sink_before, sink_after, now),
    ensures
        ({
            let k = taken(before, now, sink_before.capacity_spec());
            &&& 0 <= k <= before.len()
            &&& forall|i: int| 0 <= i < k ==> #[trigger] before[i].deadline <= now
            &&& sorted(before.take(k))
            &&& sorted(after)
            &&& sink_before.capacity_spec().fits(count_expired(before, now) as int) ==> forall|i: int|
                0 <= i < after.len() ==> #[trigger] after[i].deadline > now
        }),
{
    lemma_count_expired(before, now);
    lemma_sorted_expired(before, now);
    let k = taken(before, now, sink_before.capacity_spec());
    assert forall|i: int| 0 <= i < k implies #[trigger] before[i].deadline <= now by {}
    assert forall|i: int, j: int| 0 <= i < j < before.take(k).len() implies deadline_le(
        #[trigger] before.take(k)[i],
        #[trigger] before.take(k)[j],
    ) by {
        assert(before.take(k)[i] == before[i]);
        assert(before.take(k)[j] == before[j]);
    }
    assert forall|i: int, j: int| 0 <= i < j < after.len() implies deadline_le(
        #[trigger] after[i],
        #[trigger] after[j],
    ) by {
        assert(after[i] == before[i + k]);
        assert(after[j] == before[j + k]);
    }
    if sink_before.capacity_spec().fits(count_expired(before, now) as int) {
        assert(k == count_expired(before, now));
        assert forall|i: int| 0 <= i < after.len() implies #[trigger] after[i].deadline > now by {
            assert(after[i] == before[i + k]);
        }
    }
}

/// A deadline added to the queue fires after its time and not before: a
/// poll at a time before the deadline leaves it in the queue; a poll at or
/// after it, into a sink with room for every passed deadline, adds its timer
/// event to the sink and leaves no passed deadline behind, so that it does
/// not fire again.
pub proof fn lemma_deadline_fires_after_its_time<ES: Sink>(
    before: Seq<Deadline>,
    added: Seq<Deadline>,
    after: Seq<Deadline>,
    sink_before: ES,
    sink_after: ES,
    deadline: i128,
    id: usize,
    now: int,
)
    requires
        deadline_added(before, added, deadline as int, id),
        polled_at(added, after, sink_before, sink_after, now),
    ensures
        deadline > now ==> after.contains(Deadline { deadline, id }),
        deadline <= now && sink_before.capacity_spec().fits(count_expired(added, now) as int) ==> {
            &&& sink_after.received().skip(sink_before.received().len() as int).contains(
                timer_event(Deadline { deadline, id }),
            )
            &&& forall|i: int| 0 <= i < after.len() ==> #[trigger] after[i].deadline > now
        },
{
    broadcast use {vstd::seq_lib::group_to_multiset_ensures, vstd::multiset::group_multiset_axioms};

    let d = Deadline { deadline, id };
    assert(added.to_multiset().count(d) > 0);
    assert(added.contains(d));
    let j = choose|j: int| 0 <= j < added.len() && added[j] == d;
    lemma_count_expired(added, now);
    lemma_sorted_expired(added, now);
    lemma_polled_at_expired(added, after, sink_before, sink_after, now);
    let k = taken(added, now, sink_before.capacity_spec());
    if deadline > now {
        assert(k <= count_expired(added, now));
        assert(j >= count_expired(added, now));
        assert(after[j - k] == d);
    }
    if deadline <= now && sink_before.capacity_spec().fits(count_expired(added, now) as int) {
        assert(j < count_expired(added, now));
        assert(k == count_expired(added, now));
        let events = added.take(k).map_values(|x: Deadline| timer_event(x));
        assert(sink_after.received().skip(sink_before.received().len() as int) == events);
        assert(events[j] == timer_event(d));
    }
}

/// Timer readiness queue.
///
/// Deadlines are added with an id; once a deadline has passed, polling the
/// queue gives an event with that id and [`Ready::timer`] readiness. Events
/// come out in the order of their deadlines, then of their ids. Polling this
/// event source never returns an error.
///
/// Points in time are held as nanoseconds relative to the instant the queue
/// was created at.
#[derive(Debug)]
pub struct Timers {
    reference: std::time::Instant,
    deadlines: DeadlineQueue,
}

impl Timers {
    /// The instant that points in time are counted from.
    pub closed spec fn reference(&self) -> std::time::Instant {
        self.reference
    }

    /// The pending deadlines, in order.
    pub closed spec fn pending(&self) -> Seq<Deadline> {
        self.deadlines.pending()
    }

    /// Create a new timer event source, without deadlines.
    pub fn new() -> (t: Timers)
        ensures
            t.pending() == Seq::<Deadline>::empty(),
    {
        Timers { reference: instant_now(), deadlines: DeadlineQueue::new() }
    }

    /// The point in time `instant`, in nanoseconds relative to the queue's
    /// reference instant.
    pub fn nanos_of(&self, instant: &std::time::Instant) -> (n: i128)
        ensures
            n == signed_span(*instant, self.reference()),
            -crate::time::max_nanos() <= n <= crate::time::max_nanos(),
            *instant == self.reference() ==> n == 0,
    {
        nanos_since(instant, &self.reference)
    }

    /// Adds a deadline at `deadline` nanoseconds relative to the queue's
    /// reference instant.
    pub fn add_deadline_nanos(&mut self, id: Id, deadline: i128)
        ensures
            final(self).reference() == old(self).reference(),
            deadline_added(old(self).pending(), final(self).pending(), deadline as int, id.0),
    {
        self.deadlines.add(Deadline { deadline, id: id.0 });
    }

    /// Add a new deadline.
    ///
    /// This causes an event with the [`Ready::timer`] readiness and the
    /// provided `id` once the `deadline` has passed.
    pub fn add_deadline(&mut self, id: Id, deadline: std::time::Instant)
        ensures
            deadline_added(old(self).pending(), final(self).pending(), signed_span(deadline, old(self).reference()), id.0),
            final(self).reference() == old(self).reference(),
    {
        let n = self.nanos_of(&deadline);
        self.add_deadline_nanos(id, n);
    }

    /// The deadline `timeout` after `now`, both relative to the reference
    /// instant.
    pub fn deadline_after(now: i128, timeout: Duration) -> (n: i128)
        requires
            -crate::time::max_nanos() <= now <= crate::time::max_nanos(),
        ensures
            n == now + timeout.nanos(),
    {
        now + timeout.as_nanos() as i128
    }

    /// Add a new timeout: a deadline `timeout` from now.
    pub fn add_timeout(&mut self, id: Id, timeout: Duration)
        ensures
            final(self).reference() == old(self).reference(),
            exists|now: i128| #[trigger]
                deadline_added(old(self).pending(), final(self).pending(), now + timeout.nanos(), id.0),
    {
        let now = self.nanos_of(&instant_now());
        let deadline = Timers::deadline_after(now, timeout);
        self.add_deadline_nanos(id, deadline);
    }

    /// Remove a previously added deadline with the id `id`: the first in
    /// order, where there are several.
    pub fn remove_deadline(&mut self, id: Id)
        ensures
            final(self).reference() == old(self).reference(),
            sorted(final(self).pending()),
            first_with_id(old(self).pending(), id.0) matches Some(i) ==> final(self).pending()
                == old(self).pending().remove(i),
            first_with_id(old(self).pending(), id.0) is None ==> final(self).pending()
                == old(self).pending(),
    {
        self.deadlines.remove_id(id.0);
    }

    /// The time from `now` until the first deadline: `None` without
    /// deadlines, zero where it has passed.
    pub fn timeout_at(&self, now: i128) -> (t: Option<Duration>)
        ensures
            timeout_given(self.pending(), now as int, t),
    {
        match self.deadlines.first() {
            None => None,
            Some(first) => if first.deadline <= now {
                Some(Duration::zero())
            } else {
                match first.deadline.checked_sub(now) {
                    Some(left) => Some(Duration::from_nanos_saturating(left as u128)),
                    None => Some(Duration::max_value()),
                }
            },
        }
    }

    /// The time until the first deadline: `None` without deadlines, zero
    /// where it has passed.
    pub fn next_event_available(&self) -> (t: Option<Duration>)
        ensures
            self.pending().len() == 0 <==> t is None,
            exists|now: i128| #[trigger] timeout_given(self.pending(), now as int, t),
    {
        let now = self.nanos_of(&instant_now());
        self.timeout_at(now)
    }

    /// Adds to `event_sink` a timer event for every deadline that has passed
    /// at `now`, in order, as many as fit; they leave the queue.
    pub fn poll_at<ES: Sink>(&mut self, event_sink: &mut ES, now: i128)
        ensures
            sorted(old(self).pending()),
            final(self).reference() == old(self).reference(),
            polled_at(
                old(self).pending(),
                final(self).pending(),
                *old(event_sink),
                *final(event_sink),
                now as int,
            ),
            sorted(final(self).pending()),
            sink_extended(*old(event_sink), *final(event_sink)),
    {
        proof {
            lemma_count_expired(self.pending(), now as int);
        }
        let max = event_sink.capacity_left().min(self.deadlines.len());
        let expired = self.deadlines.pop_expired(now, max);
        let ghost taken_deadlines = expired@;
        let mut events: Vec<Event> = Vec::new();
        let mut i: usize = 0;
        while i < expired.len()
            invariant
                i <= expired.len(),
                expired@ == taken_deadlines,
                events@ == taken_deadlines.take(i as int).map_values(|d: Deadline| timer_event(d)),
            decreases expired.len() - i,
        {
            let d = expired[i];
            events.push(Event::new(Id(d.id), Ready::timer()));
            proof {
                assert(taken_deadlines.take(i + 1) == taken_deadlines.take(i as int).push(d));
            }
            i = i + 1;
        }
        proof {
            assert(taken_deadlines.take(expired.len() as int) == taken_deadlines);
        }
        event_sink.extend(events);
    }

    /// The longest a poll may block before an event becomes available: the
    /// time until the first deadline, zero where it has passed, `None`
    /// without deadlines.
    pub fn max_timeout(&self) -> (t: Option<Duration>)
        ensures
            self.pending().len() == 0 <==> t is None,
            exists|now: i128| #[trigger] timeout_given(self.pending(), now as int, t),
    {
        self.next_event_available()
    }
}

impl Default for Timers {
    fn default() -> (t: Timers)
        ensures
            t.pending() == Seq::<Deadline>::empty(),
    {
        Timers::new()
    }
}

impl<ES: Sink, E> Source<ES, E> for Timers {
    fn max_timeout(&self) -> (t: Option<Duration>)
        ensures
            self.pending().len() == 0 <==> t is None,
            exists|now: i128| #[trigger] timeout_given(self.pending(), now as int, t),
    {
        Timers::max_timeout(self)
    }

    /// Adds to `event_sink` a timer event for every deadline that has passed,
    /// in order, as many as fit; they leave the queue. Never fails.
    fn poll(&mut self, event_sink: &mut ES) -> (r: Result<(), E>)
        ensures
            sorted(old(self).pending()),
            poll_succeeded::<E>(r),
            exists|now: i128|
                #[trigger] polled_at(
                    old(self).pending(),
                    final(self).pending(),
                    *old(event_sink),
                    *final(event_sink),
                    now as int,
                ),
    {
        let now = self.nanos_of(&instant_now());
        self.poll_at(event_sink, now);
        Ok(())
    }
}

} // verus!
