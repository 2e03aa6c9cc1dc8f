//! User space readiness event queue.

use vstd::prelude::*;

use crate::event::{Event, Sink, Source, poll_succeeded, sink_extended};
use crate::time::Duration;

verus! {

/// Polling into a sink that can grow moves every waiting event, in the
/// order they were added, and leaves the queue empty.
pub proof fn lemma_growable_takes_all(pending: Seq<Event>)
    ensures
        ({
            let n = crate::event::Capacity::Growable.min_spec(pending.len() as int);
            &&& pending.take(n) == pending
            &&& pending.skip(n) == Seq::<Event>::empty()
        }),
{
    assert(pending.take(pending.len() as int) == pending);
    assert(pending.skip(pending.len() as int) == Seq::<Event>::empty());
}

/// User space readiness queue.
///
/// A simple, single threaded user space readiness event queue. Events come
/// out in the order they were added. Polling this event source never returns
/// an error.
#[derive(Debug)]
pub struct Queue {
    events: Vec<Event>,
}

impl Queue {
    /// The events waiting in the queue, oldest first.
    pub closed spec fn pending(&self) -> Seq<Event> {
        self.events@
    }

    /// Create a new, empty user space readiness event queue.
    pub fn new() -> (q: Queue)
        ensures
            q.pending() == Seq::<Event>::empty(),
    {
        Queue { events: Vec::new() }
    }

    /// Add a new readiness event at the back of the queue.
    pub fn add(&mut self, event: Event)
        ensures
            final(self).pending() == old(self).pending().push(event),
    {
        self.events.push(event);
    }

    /// The longest a poll may block: not at all where events are waiting, no
    /// limit otherwise.
    pub fn max_timeout(&self) -> (t: Option<Duration>)
        ensures
            self.pending().len() > 0 ==> (t matches Some(d) && d.nanos() == 0),
            self.pending().len() == 0 ==> t is None,
    {
        if self.events.len() != 0 {
            Some(Duration::zero())
        } else {
            None
        }
    }

    /// Moves the oldest events, as many as `event_sink` has capacity left
    /// for, from the queue to `event_sink`.
    pub fn poll_into<ES: Sink>(&mut self, event_sink: &mut ES)
        ensures
            ({
                let n = old(event_sink).capacity_spec().min_spec(old(self).pending().len() as int);
                &&& final(event_sink).received() == old(event_sink).received() + old(self).pending().take(n)
                &&& final(self).pending() == old(self).pending().skip(n)
                &&& final(event_sink).capacity_spec() == old(event_sink).capacity_spec().after(n)
            }),
    {
        let n = event_sink.capacity_left().min(self.events.len());
        let mut ready = self.events.split_off(n);
        core::mem::swap(&mut self.events, &mut ready);
        event_sink.extend(ready);
    }
}

impl Default for Queue {
    fn default() -> (q: Queue)
        ensures
            q.pending() == Seq::<Event>::empty(),
    {
        Queue::new()
    }
}

impl<ES: Sink, E> Source<ES, E> for Queue {
    fn max_timeout(&self) -> (t: Option<Duration>)
        ensures
            self.pending().len() > 0 ==> (t matches Some(d) && d.nanos() == 0),
            self.pending().len() == 0 ==> t is None,
    {
        Queue::max_timeout(self)
    }

    /// Moves the oldest events, as many as `event_sink` has capacity left
    /// for, from the queue to `event_sink`. Never fails.
    fn poll(&mut self, event_sink: &mut ES) -> (r: Result<(), E>)
        ensures
            poll_succeeded::<E>(r),
            ({
                let n = old(event_sink).capacity_spec().min_spec(old(self).pending().len() as int);
                &&& final(event_sink).received() == old(event_sink).received() + old(self).pending().take(n)
                &&& final(self).pending() == old(self).pending().skip(n)
                &&& final(event_sink).capacity_spec() == old(event_sink).capacity_spec().after(n)
            }),
    {
        self.poll_into(event_sink);
        Ok(())
    }
}

} // verus!
