//! A poller of user space readiness events and deadlines.
//!
//! [`Poller`] holds two sources of events: user space events, added with
//! [`Poller::notify`], and deadlines, added with [`Poller::add_deadline`].
//! Polling hands the user space events out first, oldest first, then an
//! event with timer readiness for every passed deadline, in the order of the
//! deadlines, as many as the [`Events`] container has room for. What does
//! not fit stays for the next poll.
//!
//! Handles implementing [`Evented`] register with a poller; the poller checks
//! the id and the interests and leaves the rest to the handle.

use vstd::prelude::*;

pub mod event;
pub mod option;
pub mod token;

pub use self::event::{Event, Evented, EventedId, Events, Ready};
pub use self::option::{PollOpt, PollOption};
pub use self::token::Token;
pub use crate::os::interests::Interests;

use crate::clock::{instant_now, nanos_since, signed_span};
use crate::deadlines::{count_expired, deadline_added, first_with_id, lemma_count_expired, Deadline, DeadlineQueue, sorted};
use crate::registration::NotifyError;
use crate::time::{Duration, max_nanos};

verus! {

/// The error of registering, reregistering or deregistering a handle.
#[derive(Copy, Clone, PartialEq, Eq, Structural, Debug)]
pub enum RegisterError {
    /// The id is the reserved, invalid one.
    InvalidId,
    /// The interests are empty.
    EmptyInterests,
    /// The handle is registered already.
    RegisteredTwice,
    /// The handle was never registered, so cannot be reregistered.
    ReregisterFirst,
    /// The handle is not registered, so cannot be deregistered.
    DeregisterFirst,
}

impl RegisterError {
    /// The text of the error.
    pub open spec fn text(self) -> Seq<char> {
        match self {
            RegisterError::InvalidId => "invalid evented id"@,
            RegisterError::EmptyInterests => "empty interests"@,
            RegisterError::RegisteredTwice => "cannot register `Registration` twice without deregistering first, or use reregister"@,
            RegisterError::ReregisterFirst => "cannot reregister `Registration` before registering first"@,
            RegisterError::DeregisterFirst => "cannot deregister `Registration` before registering first"@,
        }
    }

    /// The text of the error.
    pub fn description(&self) -> (s: &'static str)
        ensures
            s@ == self.text(),
    {
        match self {
            RegisterError::InvalidId => "invalid evented id",
            RegisterError::EmptyInterests => "empty interests",
            RegisterError::RegisteredTwice => "cannot register `Registration` twice without deregistering first, or use reregister",
            RegisterError::ReregisterFirst => "cannot reregister `Registration` before registering first",
            RegisterError::DeregisterFirst => "cannot deregister `Registration` before registering first",
        }
    }
}

/// The event of the passed deadline `d`: its id with timer readiness.
pub open spec fn deadline_event(d: Deadline) -> Event {
    Event::new_spec(EventedId(d.id), Ready::from_bits_spec(crate::event::TIMER_BIT))
}

/// The smaller of `a` and `b`.
pub open spec fn min_int(a: int, b: int) -> int {
    if a <= b { a } else { b }
}

/// A poll at `now` took from `before` into the emptied container `after_events`
/// the passed deadlines, in order, then the user space events, oldest first,
/// as many as fit, and left the others in `after`.
pub open spec fn polled_userspace(before: Poller, after: Poller, before_events: Events, after_events: Events, now: int) -> bool {
    let cap = before_events.capacity_spec() as int;
    let k = min_int(count_expired(before.deadlines(), now) as int, cap);
    let n = min_int(before.userspace().len() as int, cap - k);
    &&& after_events.held() == before.deadlines().take(k).map_values(|d: Deadline| deadline_event(d))
        + before.userspace().take(n)
    &&& after.userspace() == before.userspace().skip(n)
    &&& after.deadlines() == before.deadlines().skip(k)
    &&& after_events.capacity_spec() == before_events.capacity_spec()
    &&& after_events.handed_out() == 0
}

/// Collecting at `now` added to `before_events` the passed deadlines of
/// `before`, in order, then its user space events, oldest first, as many as
/// fit, and left the others in `after`.
pub open spec fn collected(before: Poller, after: Poller, before_events: Events, after_events: Events, now: int) -> bool {
    let left = before_events.capacity_spec() - before_events.held().len();
    let k = min_int(count_expired(before.deadlines(), now) as int, left);
    let n = min_int(before.userspace().len() as int, left - k);
    &&& after_events.held() == before_events.held() + before.deadlines().take(k).map_values(
        |d: Deadline| deadline_event(d),
    ) + before.userspace().take(n)
    &&& after.userspace() == before.userspace().skip(n)
    &&& after.deadlines() == before.deadlines().skip(k)
    &&& after_events.capacity_spec() == before_events.capacity_spec()
    &&& after_events.handed_out() == before_events.handed_out()
}

/// A poll never puts more events in the container than it has room for, and
/// never leaves out a passed deadline or a user space event while there is
/// room: a poll stops at the first not passed deadline or when the container
/// is full, and takes user space events until they or the room run out.
pub proof fn lemma_poll_within_capacity(before: Poller, after: Poller, before_events: Events, after_events: Events, now: int)
    requires
        polled_userspace(before, after, before_events, after_events, now),
    ensures
        after_events.held().len() <= before_events.capacity_spec(),
        after_events.held().len() < before_events.capacity_spec() ==> after.userspace().len() == 0
            && count_expired(after.deadlines(), now) == 0,
{
    lemma_count_expired(before.deadlines(), now);
    let cap = before_events.capacity_spec() as int;
    let k = min_int(count_expired(before.deadlines(), now) as int, cap);
    let n = min_int(before.userspace().len() as int, cap - k);
    assert(after_events.held().len() == k + n);
    if after_events.held().len() < cap {
        assert(k == count_expired(before.deadlines(), now));
        assert(n == before.userspace().len());
        lemma_count_expired(after.deadlines(), now);
        if after.deadlines().len() > 0 {
            assert(after.deadlines()[0] == before.deadlines()[k]);
            if k < before.deadlines().len() {
                assert(before.deadlines()[k].deadline > now);
            }
        }
    }
}

/// Polls user space events and deadlines.
#[derive(Debug)]
pub struct Poller {
    reference: std::time::Instant,
    userspace_events: Vec<Event>,
    deadlines: DeadlineQueue,
}

impl Poller {
    /// The instant that points in time are counted from.
    pub closed spec fn reference(&self) -> std::time::Instant {
        self.reference
    }

    /// The user space events waiting, oldest first.
    pub closed spec fn userspace(&self) -> Seq<Event> {
        self.userspace_events@
    }

    /// The deadlines waiting, in order.
    pub closed spec fn deadlines(&self) -> Seq<Deadline> {
        self.deadlines.pending()
    }

    /// A new poller, without events or deadlines.
    pub fn new() -> (p: Poller)
        ensures
            p.userspace() == Seq::<Event>::empty(),
            p.deadlines() == Seq::<Deadline>::empty(),
    {
        Poller {
            reference: instant_now(),
            userspace_events: Vec::new(),
            deadlines: DeadlineQueue::new(),
        }
    }

    /// Register a handle with the poller, under `id`, for readiness in
    /// `interests`, with the option `opt`.
    ///
    /// The reserved id and empty interests are refused; otherwise the handle
    /// registers itself.
    pub fn register<E: Evented>(&mut self, handle: &mut E, id: EventedId, interests: Ready, opt: PollOption) -> (r: Result<(), RegisterError>)
        ensures
            id.0 == event::INVALID_ID ==> r == Err::<(), RegisterError>(RegisterError::InvalidId) && *final(self) == *old(self)
                && *final(handle) == *old(handle),
            id.0 != event::INVALID_ID && interests.bits() == 0 ==> r == Err::<(), RegisterError>(
                RegisterError::EmptyInterests,
            ) && *final(self) == *old(self) && *final(handle) == *old(handle),
            id.0 != event::INVALID_ID && interests.bits() != 0 ==> E::registered(
                *old(handle),
                *final(handle),
                *old(self),
                *final(self),
                id,
                interests,
                opt,
                r,
            ),
    {
        if !id.is_valid() {
            return Err(RegisterError::InvalidId);
        }
        if interests.is_empty() {
            return Err(RegisterError::EmptyInterests);
        }
        handle.register(self, id, interests, opt)
    }

    /// Reregister a handle with the poller, replacing its id, interests and
    /// option.
    ///
    /// The reserved id and empty interests are refused; otherwise the handle
    /// reregisters itself.
    pub fn reregister<E: Evented>(&mut self, handle: &mut E, id: EventedId, interests: Ready, opt: PollOption) -> (r: Result<(), RegisterError>)
        ensures
            id.0 == event::INVALID_ID ==> r == Err::<(), RegisterError>(RegisterError::InvalidId) && *final(self) == *old(self)
                && *final(handle) == *old(handle),
            id.0 != event::INVALID_ID && interests.bits() == 0 ==> r == Err::<(), RegisterError>(
                RegisterError::EmptyInterests,
            ) && *final(self) == *old(self) && *final(handle) == *old(handle),
            id.0 != event::INVALID_ID && interests.bits() != 0 ==> E::reregistered(
                *old(handle),
                *final(handle),
                *old(self),
                *final(self),
                id,
                interests,
                opt,
                r,
            ),
    {
        if !id.is_valid() {
            return Err(RegisterError::InvalidId);
        }
        if interests.is_empty() {
            return Err(RegisterError::EmptyInterests);
        }
        handle.reregister(self, id, interests, opt)
    }

    /// Deregister a handle from the poller.
    pub fn deregister<E: Evented>(&mut self, handle: &mut E) -> (r: Result<(), RegisterError>)
        ensures
            E::deregistered(*old(handle), *final(handle), *old(self), *final(self), r),
    {
        handle.deregister(self)
    }

    /// Add a user space event with `id` and `ready`.
    pub fn notify(&mut self, id: EventedId, ready: Ready) -> (r: Result<(), NotifyError>)
        ensures
            final(self).reference() == old(self).reference(),
            r is Ok,
            final(self).userspace() == old(self).userspace().push(Event::new_spec(id, ready)),
            final(self).deadlines() == old(self).deadlines(),
    {
        self.userspace_events.push(Event::new(id, ready));
        Ok(())
    }

    /// The point in time `instant`, in nanoseconds relative to the poller's
    /// reference instant.
    pub fn nanos_of(&self, instant: &std::time::Instant) -> (n: i128)
        ensures
            n == signed_span(*instant, self.reference()),
            -max_nanos() <= n <= max_nanos(),
            *instant == self.reference() ==> n == 0,
    {
        nanos_since(instant, &self.reference)
    }

    /// Add a deadline at `deadline` nanoseconds relative to the reference
    /// instant.
    pub fn add_deadline_nanos(&mut self, id: EventedId, deadline: i128)
        ensures
            final(self).reference() == old(self).reference(),
            deadline_added(old(self).deadlines(), final(self).deadlines(), deadline as int, id.0),
            final(self).deadlines().len() == old(self).deadlines().len() + 1,
            final(self).userspace() == old(self).userspace(),
    {
        self.deadlines.add(Deadline { deadline, id: id.0 });
    }

    /// Add a deadline: once `deadline` has passed a poll gives an event with
    /// `id` and timer readiness.
    pub fn add_deadline(&mut self, id: EventedId, deadline: std::time::Instant) -> (r: Result<(), RegisterError>)
        ensures
            r is Ok,
            sorted(final(self).deadlines()),
            deadline_added(old(self).deadlines(), final(self).deadlines(), signed_span(deadline, old(self).reference()), id.0),
            final(self).reference() == old(self).reference(),
            final(self).deadlines().len() == old(self).deadlines().len() + 1,
            final(self).userspace() == old(self).userspace(),
    {
        let n = self.nanos_of(&deadline);
        self.add_deadline_nanos(id, n);
        Ok(())
    }

    /// Add a deadline `after` past `base`.
    pub fn add_deadline_after(&mut self, id: EventedId, base: &std::time::Instant, after: Duration)
        ensures
            final(self).reference() == old(self).reference(),
            sorted(final(self).deadlines()),
            deadline_added(
                old(self).deadlines(),
                final(self).deadlines(),
                signed_span(*base, old(self).reference()) + after.nanos(),
                id.0,
            ),
            final(self).deadlines().len() == old(self).deadlines().len() + 1,
            final(self).userspace() == old(self).userspace(),
    {
        let n = self.nanos_of(base);
        let deadline: i128 = n + after.as_nanos() as i128;
        self.add_deadline_nanos(id, deadline);
    }

    /// Remove the first deadline with `id`, where there is one.
    pub fn remove_deadline(&mut self, id: EventedId) -> (r: Result<(), RegisterError>)
        ensures
            final(self).reference() == old(self).reference(),
            r is Ok,
            sorted(final(self).deadlines()),
            first_with_id(old(self).deadlines(), id.0) matches Some(i) ==> final(self).deadlines()
                == old(self).deadlines().remove(i),
            first_with_id(old(self).deadlines(), id.0) is None ==> final(self).deadlines()
                == old(self).deadlines(),
            final(self).userspace() == old(self).userspace(),
    {
        self.deadlines.remove_id(id.0);
        Ok(())
    }

    /// `t` is the timeout for the system selector at `now` for the provided
    /// `timeout`: no blocking while user space events wait or a deadline has
    /// passed; otherwise the provided timeout, or the time until the first
    /// deadline where that is sooner.
    pub open spec fn timeout_decided(&self, timeout: Option<Duration>, now: int, t: Option<Duration>) -> bool {
        &&& self.userspace().len() > 0 ==> (t matches Some(d) && d.nanos() == 0)
        &&& self.userspace().len() == 0 && self.deadlines().len() == 0 ==> t == timeout
        &&& self.userspace().len() == 0 && self.deadlines().len() > 0 && self.deadlines()[0].deadline
            <= now ==> (t matches Some(d) && d.nanos() == 0)
        &&& self.userspace().len() == 0 && self.deadlines().len() > 0 && self.deadlines()[0].deadline
            > now ==> ({
            let left = self.deadlines()[0].deadline - now;
            let until = if left <= max_nanos() { left } else { max_nanos() as int };
            match timeout {
                Some(d) => if d.nanos() < until {
                    t == timeout
                } else {
                    t matches Some(u) && u.nanos() == until
                },
                None => t matches Some(u) && u.nanos() == until,
            }
        })
    }

    /// The timeout to give the system selector, at `now`, for the provided
    /// `timeout`: no blocking while user space events wait or a deadline has
    /// passed; otherwise the provided timeout, or the time until the first
    /// deadline where that is sooner.
    pub fn determine_timeout_at(&self, timeout: Option<Duration>, now: i128) -> (t: Option<Duration>)
        ensures
            self.timeout_decided(timeout, now as int, t),
    {
        if self.userspace_events.len() != 0 {
            return Some(Duration::zero());
        }
        match self.deadlines.first() {
            None => timeout,
            Some(first) => {
                if first.deadline <= now {
                    return Some(Duration::zero());
                }
                let until = match first.deadline.checked_sub(now) {
                    Some(left) => Duration::from_nanos_saturating(left as u128),
                    None => Duration::max_value(),
                };
                match timeout {
                    Some(t) => if t.lt(&until) {
                        timeout
                    } else {
                        Some(until)
                    },
                    None => Some(until),
                }
            },
        }
    }

    /// The timeout to give the system selector for the provided `timeout`,
    /// as `determine_timeout_at` says for the current time.
    pub fn determine_timeout(&self, timeout: Option<Duration>) -> (t: Option<Duration>)
        ensures
            exists|now: i128| #[trigger] self.timeout_decided(timeout, now as int, t),
            self.userspace().len() > 0 ==> (t matches Some(d) && d.nanos() == 0),
            self.userspace().len() == 0 && self.deadlines().len() == 0 ==> t == timeout,
            self.deadlines().len() > 0 ==> t is Some,
            timeout matches Some(d) ==> (t matches Some(u) && u.nanos() <= d.nanos()),
    {
        let now = self.nanos_of(&instant_now());
        self.determine_timeout_at(timeout, now)
    }

    /// The timeout left after a selector call with the timeout `timeout` was
    /// interrupted after `elapsed`: `None` where the timeout has elapsed and
    /// polling should stop, the remaining time otherwise; no limit stays no
    /// limit.
    pub fn timeout_after_interrupt(timeout: Option<Duration>, elapsed: Duration) -> (t: Option<Option<Duration>>)
        ensures
            timeout is None ==> t == Some(None::<Duration>),
            timeout matches Some(to) ==> (if elapsed.nanos() >= to.nanos() {
                t is None
            } else {
                t matches Some(Some(left)) && left.nanos() == to.nanos() - elapsed.nanos()
            }),
    {
        match timeout {
            None => Some(None),
            Some(to) => if to.le(&elapsed) {
                None
            } else {
                match to.checked_sub(elapsed) {
                    Some(left) => Some(Some(left)),
                    None => None,
                }
            },
        }
    }

    /// Moves user space events, oldest first, into `events`, as many as fit.
    fn poll_userspace_internal(&mut self, events: &mut Events)
        ensures
            final(self).reference() == old(self).reference(),
            ({
                let n = min_int(
                    old(self).userspace().len() as int,
                    old(events).capacity_spec() - old(events).held().len(),
                );
                &&& final(events).held() == old(events).held() + old(self).userspace().take(n)
                &&& final(self).userspace() == old(self).userspace().skip(n)
            }),
            final(events).capacity_spec() == old(events).capacity_spec(),
            final(events).handed_out() == old(events).handed_out(),
            final(self).deadlines() == old(self).deadlines(),
    {
        let n = events.extend_events(self.userspace_events.as_slice());
        let rest = self.userspace_events.split_off(n);
        self.userspace_events = rest;
    }

    /// Adds the events of the deadlines passed at `now` into `events`, in
    /// order, as many as fit.
    fn poll_deadlines(&mut self, events: &mut Events, now: i128)
        ensures
            sorted(old(self).deadlines()),
            final(self).reference() == old(self).reference(),
            ({
                let k = min_int(
                    count_expired(old(self).deadlines(), now as int) as int,
                    old(events).capacity_spec() - old(events).held().len(),
                );
                &&& final(events).held() == old(events).held() + old(self).deadlines().take(k).map_values(
                    |d: Deadline| deadline_event(d),
                )
                &&& final(self).deadlines() == old(self).deadlines().skip(k)
            }),
            sorted(final(self).deadlines()),
            final(events).capacity_spec() == old(events).capacity_spec(),
            final(events).handed_out() == old(events).handed_out(),
            final(self).userspace() == old(self).userspace(),
            old(events).held().len() <= old(events).capacity_spec(),
    {
        proof {
            lemma_count_expired(self.deadlines(), now as int);
        }
        let left = events.capacity_left();
        let expired = self.deadlines.pop_expired(now, left);
        let ghost taken = expired@;
        let ghost before = events.held();
        let mut i: usize = 0;
        while i < expired.len()
            invariant
                i <= expired.len(),
                expired@ == taken,
                taken.len() <= left,
                left == old(events).capacity_spec() - old(events).held().len(),
                events.capacity_spec() == old(events).capacity_spec(),
                events.handed_out() == old(events).handed_out(),
                events.held() == before + taken.take(i as int).map_values(|d: Deadline| deadline_event(d)),
                before == old(events).held(),
            decreases expired.len() - i,
        {
            let d = expired[i];
            proof {
                assert(taken.take(i + 1) == taken.take(i as int).push(d));
            }
            events.push(Event::new(EventedId(d.id), Ready::timer()));
            i = i + 1;
        }
        proof {
            assert(taken.take(expired.len() as int) == taken);
        }
    }

    /// Adds to `events` the events of the deadlines passed at `now`, in
    /// order, then the user space events, oldest first, as many as fit; what
    /// was added leaves the poller.
    pub fn collect_at(&mut self, events: &mut Events, now: i128)
        ensures
            sorted(old(self).deadlines()),
            final(self).reference() == old(self).reference(),
            collected(*old(self), *final(self), *old(events), *final(events), now as int),
            sorted(final(self).deadlines()),
    {
        proof {
            lemma_count_expired(self.deadlines(), now as int);
        }
        let ghost start = events.held();
        self.poll_deadlines(events, now);
        let ghost with_deadlines = events.held();
        proof {
            let k = min_int(
                count_expired(old(self).deadlines(), now as int) as int,
                old(events).capacity_spec() - start.len(),
            );
            assert(with_deadlines.len() == start.len() + k);
        }
        self.poll_userspace_internal(events);
    }

    /// Poll the deadlines passed at `now` and the user space events: the
    /// container `events` is cleared, then receives the events of the passed
    /// deadlines, in order, then the user space events, oldest first, as many
    /// as fit.
    pub fn poll_userspace_at(&mut self, events: &mut Events, now: i128)
        ensures
            sorted(old(self).deadlines()),
            final(self).reference() == old(self).reference(),
            polled_userspace(*old(self), *final(self), *old(events), *final(events), now as int),
            sorted(final(self).deadlines()),
    {
        events.clear();
        let ghost cleared = *events;
        self.collect_at(events, now);
        proof {
            assert(cleared.held().len() == 0);
            let cap = old(events).capacity_spec() as int;
            let k = min_int(count_expired(old(self).deadlines(), now as int) as int, cap);
            let n = min_int(old(self).userspace().len() as int, cap - k);
            let added = old(self).deadlines().take(k).map_values(|d: Deadline| deadline_event(d))
                + old(self).userspace().take(n);
            assert(cleared.held() + added == added);
        }
    }

    /// Poll the passed deadlines and the user space events, as
    /// `poll_userspace_at` says for the current time.
    pub fn poll_userspace(&mut self, events: &mut Events)
        ensures
            sorted(old(self).deadlines()),
            final(self).reference() == old(self).reference(),
            sorted(final(self).deadlines()),
            final(events).capacity_spec() == old(events).capacity_spec(),
            exists|now: i128| #[trigger]
                polled_userspace(*old(self), *final(self), *old(events), *final(events), now as int),
    {
        let now = self.nanos_of(&instant_now());
        self.poll_userspace_at(events, now);
    }
}

} // verus!
