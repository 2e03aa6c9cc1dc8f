//! Timers: deadlines that register with a poller.

use vstd::prelude::*;

use crate::clock::{instant_now, signed_span};
use crate::poll::{Evented, EventedId, PollOption, Poller, Ready, RegisterError};
use crate::deadlines::{deadline_added, first_with_id};
use crate::time::Duration;

verus! {

/// A deadline handle: registering it with a [`Poller`] adds its deadline to
/// the poller under the registered id, deregistering removes it.
///
/// The deadline is the instant `base` plus the span `after`.
#[derive(Debug)]
pub struct Timer {
    id: EventedId,
    base: std::time::Instant,
    after: Duration,
}

impl Timer {
    /// The id the timer was last registered under.
    pub closed spec fn id_spec(&self) -> EventedId {
        self.id
    }

    /// The span past the base instant.
    pub closed spec fn after_spec(&self) -> Duration {
        self.after
    }

    /// The base instant.
    pub closed spec fn base_spec(&self) -> std::time::Instant {
        self.base
    }

    /// A timer for the instant `deadline`.
    pub fn deadline(deadline: std::time::Instant) -> (t: Timer)
        ensures
            t.id_spec().0 == crate::poll::event::INVALID_ID,
            t.base_spec() == deadline,
            t.after_spec().nanos() == 0,
    {
        Timer { id: EventedId::invalid(), base: deadline, after: Duration::zero() }
    }

    /// A timer for `timeout` from now.
    pub fn timeout(timeout: Duration) -> (t: Timer)
        ensures
            t.id_spec().0 == crate::poll::event::INVALID_ID,
            t.after_spec() == timeout,
    {
        Timer { id: EventedId::invalid(), base: instant_now(), after: timeout }
    }

    /// Adds the timer's deadline to `poller` under `id`.
    pub fn register_deadline(&mut self, poller: &mut Poller, id: EventedId)
        ensures
            final(self).id_spec() == id,
            final(self).base_spec() == old(self).base_spec(),
            final(self).after_spec() == old(self).after_spec(),
            deadline_added(
                old(poller).deadlines(),
                final(poller).deadlines(),
                signed_span(old(self).base_spec(), old(poller).reference()) + old(self).after_spec().nanos(),
                id.0,
            ),
            final(poller).reference() == old(poller).reference(),
            final(poller).deadlines().len() == old(poller).deadlines().len() + 1,
            final(poller).userspace() == old(poller).userspace(),
    {
        self.id = id;
        poller.add_deadline_after(id, &self.base, self.after);
    }
}

impl Timer {
    /// Registering `before` under `id` in `poller_before` gave `after` and
    /// `poller_after`: the timer takes the id, and its deadline, `after` past
    /// its base instant, is added to the poller under that id.
    pub open spec fn deadline_registered(
        before: Timer,
        after: Timer,
        poller_before: Poller,
        poller_after: Poller,
        id: EventedId,
    ) -> bool {
        &&& after.id_spec() == id
        &&& after.base_spec() == before.base_spec()
        &&& after.after_spec() == before.after_spec()
        &&& deadline_added(
            poller_before.deadlines(),
            poller_after.deadlines(),
            signed_span(before.base_spec(), poller_before.reference()) + before.after_spec().nanos(),
            id.0,
        )
        &&& poller_after.deadlines().len() == poller_before.deadlines().len() + 1
        &&& poller_after.reference() == poller_before.reference()
        &&& poller_after.userspace() == poller_before.userspace()
    }
}

impl Evented for Timer {
    /// Registering never fails: the deadline is added under `id`.
    open spec fn registered(
        before: Self,
        after: Self,
        poller_before: Poller,
        poller_after: Poller,
        id: EventedId,
        interests: Ready,
        opt: PollOption,
        r: Result<(), RegisterError>,
    ) -> bool {
        &&& r is Ok
        &&& Timer::deadline_registered(before, after, poller_before, poller_after, id)
    }

    /// Reregistering never fails: the deadline is added again under `id`.
    open spec fn reregistered(
        before: Self,
        after: Self,
        poller_before: Poller,
        poller_after: Poller,
        id: EventedId,
        interests: Ready,
        opt: PollOption,
        r: Result<(), RegisterError>,
    ) -> bool {
        &&& r is Ok
        &&& Timer::deadline_registered(before, after, poller_before, poller_after, id)
    }

    /// Deregistering never fails: the first deadline with the timer's id is
    /// removed from the poller.
    open spec fn deregistered(
        before: Self,
        after: Self,
        poller_before: Poller,
        poller_after: Poller,
        r: Result<(), RegisterError>,
    ) -> bool {
        &&& r is Ok
        &&& after == before
        &&& first_with_id(poller_before.deadlines(), before.id_spec().0) matches Some(i) ==> poller_after.deadlines()
            == poller_before.deadlines().remove(i)
        &&& first_with_id(poller_before.deadlines(), before.id_spec().0) is None ==> poller_after.deadlines()
            == poller_before.deadlines()
        &&& poller_after.reference() == poller_before.reference()
        &&& poller_after.userspace() == poller_before.userspace()
    }

    fn register(&mut self, poller: &mut Poller, id: EventedId, interests: Ready, opt: PollOption) -> (r: Result<(), RegisterError>) {
        self.register_deadline(poller, id);
        Ok(())
    }

    fn reregister(&mut self, poller: &mut Poller, id: EventedId, interests: Ready, opt: PollOption) -> (r: Result<(), RegisterError>) {
        self.register_deadline(poller, id);
        Ok(())
    }

    fn deregister(&mut self, poller: &mut Poller) -> (r: Result<(), RegisterError>) {
        poller.remove_deadline(self.id)
    }
}

} // verus!
