//! User space registrations.
//!
//! A [`RegistrationState`] is the state of a handle that is not backed by
//! the operating system but notified by the program itself. It registers with
//! a [`Poller`] like any [`Evented`] handle; once registered, notifying it
//! adds a user space event, with its id and the notified readiness that it
//! has interest in, to the poller.

use vstd::prelude::*;

use crate::poll::event::INVALID_ID;
use crate::poll::{Event, Evented, EventedId, PollOption, Poller, Ready, RegisterError};

verus! {

/// The error of notifying a user space registration.
#[derive(Copy, Clone, PartialEq, Eq, Structural, PartialOrd, Ord, Debug)]
pub enum NotifyError {
    /// The registration is not registered.
    NotRegistered,
    /// The readiness is empty.
    EmptyReadiness,
    /// The registration has no interest in the readiness.
    NoInterest,
    /// The registration is gone.
    RegistrationGone,
    /// The poller the registration was registered with is gone.
    PollGone,
}

impl NotifyError {
    /// The text of the error.
    pub open spec fn text(self) -> Seq<char> {
        match self {
            NotifyError::NotRegistered => "accompanying registration is not registered"@,
            NotifyError::EmptyReadiness => "readiness is empty"@,
            NotifyError::NoInterest => "accompanying registration has no interest in the event"@,
            NotifyError::RegistrationGone => "accompanying registration is gone"@,
            NotifyError::PollGone => "poll instance registered to is gone"@,
        }
    }

    /// The text of the error.
    pub fn description(&self) -> (s: &'static str)
        ensures
            s@ == self.text(),
    {
        match self {
            NotifyError::NotRegistered => "accompanying registration is not registered",
            NotifyError::EmptyReadiness => "readiness is empty",
            NotifyError::NoInterest => "accompanying registration has no interest in the event",
            NotifyError::RegistrationGone => RegistrationGone.description(),
            NotifyError::PollGone => "poll instance registered to is gone",
        }
    }
}

/// The error of reaching a registration that is gone.
#[derive(Copy, Clone, PartialEq, Eq, Structural, PartialOrd, Ord, Debug)]
pub struct RegistrationGone;

impl RegistrationGone {
    /// The text of the error.
    pub fn description(&self) -> (s: &'static str)
        ensures
            s@ == "accompanying registration is gone"@,
    {
        "accompanying registration is gone"
    }
}

/// The state of a user space registration: the id it is registered under,
/// the reserved invalid id while not registered, its interests, empty while
/// not registered, and whether it has ever been registered.
#[derive(Copy, Clone, PartialEq, Eq, Structural, Debug)]
pub struct RegistrationState {
    id: EventedId,
    interests: Ready,
    registered_before: bool,
}

impl RegistrationState {
    /// The id the registration is registered under.
    pub closed spec fn id_spec(self) -> EventedId {
        self.id
    }

    /// The interests of the registration.
    pub closed spec fn interests_spec(self) -> Ready {
        self.interests
    }

    /// Whether the registration has been registered at some point, so that
    /// it may be reregistered.
    pub closed spec fn was_registered(self) -> bool {
        self.registered_before
    }

    /// A registered registration has been registered.
    #[verifier::type_invariant]
    closed spec fn wf(self) -> bool {
        self.id.0 != INVALID_ID ==> self.registered_before
    }

    /// Whether the registration is registered.
    pub open spec fn is_registered(self) -> bool {
        self.id_spec().0 != INVALID_ID
    }

    /// A registration that is not registered, without interests, and never
    /// registered.
    pub fn new() -> (r: RegistrationState)
        ensures
            !r.is_registered(),
            r.interests_spec().bits() == 0,
            !r.was_registered(),
    {
        RegistrationState { id: EventedId::invalid(), interests: Ready::empty(), registered_before: false }
    }

    /// The interests of the registration: empty where it has not been
    /// registered yet, or has been deregistered.
    pub fn interests(&self) -> (i: Ready)
        ensures
            i == self.interests_spec(),
    {
        self.interests
    }

    /// Register under `id` with `interests`; a registered registration
    /// cannot be registered again.
    pub fn register_state(&mut self, id: EventedId, interests: Ready) -> (r: Result<(), RegisterError>)
        ensures
            old(self).is_registered() ==> r == Err::<(), RegisterError>(RegisterError::RegisteredTwice)
                && *final(self) == *old(self),
            !old(self).is_registered() ==> r is Ok && final(self).id_spec() == id
                && final(self).interests_spec() == interests && final(self).was_registered(),
    {
        if self.id.is_valid() {
            Err(RegisterError::RegisteredTwice)
        } else {
            *self = RegistrationState { id, interests, registered_before: true };
            Ok(())
        }
    }

    /// Reregister under `id` with `interests`. A registration that was never
    /// registered cannot be reregistered; one that was deregistered since can.
    pub fn reregister_state(&mut self, id: EventedId, interests: Ready) -> (r: Result<(), RegisterError>)
        ensures
            !old(self).was_registered() ==> r == Err::<(), RegisterError>(RegisterError::ReregisterFirst)
                && *final(self) == *old(self),
            old(self).was_registered() ==> r is Ok && final(self).id_spec() == id
                && final(self).interests_spec() == interests && final(self).was_registered(),
    {
        if !self.registered_before {
            Err(RegisterError::ReregisterFirst)
        } else {
            *self = RegistrationState { id, interests, registered_before: true };
            Ok(())
        }
    }

    /// Deregister: the registration is no longer registered and its interests
    /// are empty; it can be reregistered.
    pub fn deregister_state(&mut self) -> (r: Result<(), RegisterError>)
        ensures
            !old(self).is_registered() ==> r == Err::<(), RegisterError>(RegisterError::DeregisterFirst)
                && *final(self) == *old(self),
            old(self).is_registered() ==> r is Ok && !final(self).is_registered()
                && final(self).interests_spec().bits() == 0 && final(self).was_registered(),
    {
        proof {
            use_type_invariant(&*self);
        }
        if !self.id.is_valid() {
            Err(RegisterError::DeregisterFirst)
        } else {
            *self = RegistrationState { id: EventedId::invalid(), interests: Ready::empty(), registered_before: true };
            Ok(())
        }
    }

    /// The event that notifying the registration of `ready` gives, or why it
    /// gives none: the registration must be registered, the readiness not
    /// empty, and the registration must have interest in some of it. The
    /// event has the registration's id and the readiness it has interest in.
    pub fn notify_event(&self, ready: Ready) -> (r: Result<Event, NotifyError>)
        ensures
            r == self.notify_event_spec(ready),
    {
        if !self.id.is_valid() {
            Err(NotifyError::NotRegistered)
        } else if ready.is_empty() {
            Err(NotifyError::EmptyReadiness)
        } else if !self.interests.intersects(ready) {
            Err(NotifyError::NoInterest)
        } else {
            Ok(Event::new(self.id, ready.intersection(self.interests)))
        }
    }

    /// Notify the registration of `ready`: the event of `notify_event` is
    /// added to the user space events of `poller`.
    pub fn notify(&self, poller: &mut Poller, ready: Ready) -> (r: Result<(), NotifyError>)
        ensures
            ({
                match self.notify_event_spec(ready) {
                    Ok(e) => r is Ok && final(poller).userspace() == old(poller).userspace().push(e),
                    Err(err) => r == Err::<(), NotifyError>(err) && final(poller).userspace() == old(
                        poller,
                    ).userspace(),
                }
            }),
            final(poller).deadlines() == old(poller).deadlines(),
    {
        match self.notify_event(ready) {
            Ok(event) => {
                let res = poller.notify(event.id(), event.readiness());
                proof {
                    Event::lemma_eq(event, Event::new_spec(event.id_spec(), event.readiness_spec()));
                    Event::lemma_new_spec(event.id_spec(), event.readiness_spec());
                }
                res
            },
            Err(err) => Err(err),
        }
    }

    /// The result of `notify_event`.
    pub open spec fn notify_event_spec(self, ready: Ready) -> Result<Event, NotifyError> {
        if !self.is_registered() {
            Err(NotifyError::NotRegistered)
        } else if ready.bits() == 0 {
            Err(NotifyError::EmptyReadiness)
        } else if self.interests_spec().bits() & ready.bits() == 0 {
            Err(NotifyError::NoInterest)
        } else {
            Ok(
                Event::new_spec(
                    self.id_spec(),
                    Ready::from_bits_spec(ready.bits() & self.interests_spec().bits()),
                ),
            )
        }
    }
}

impl RegistrationState {
    /// A registration registered under `id` with `interests` gives, when
    /// notified of readiness it has interest in, an event with that id and the
    /// readiness it has interest in; notified of readiness it has no interest
    /// in, no event.
    pub proof fn lemma_notify_registered(s: RegistrationState, ready: Ready)
        requires
            s.is_registered(),
            ready.bits() != 0,
        ensures
            s.interests_spec().bits() & ready.bits() != 0 ==> s.notify_event_spec(ready) == Ok::<
                Event,
                NotifyError,
            >(
                Event::new_spec(
                    s.id_spec(),
                    Ready::from_bits_spec(ready.bits() & s.interests_spec().bits()),
                ),
            ),
            s.interests_spec().bits() & ready.bits() == 0 ==> s.notify_event_spec(ready) == Err::<
                Event,
                NotifyError,
            >(NotifyError::NoInterest),
    {
    }

    /// A registration that is not registered, fresh or deregistered, gives no
    /// event, whatever it is notified of.
    pub proof fn lemma_notify_unregistered(s: RegistrationState, ready: Ready)
        requires
            !s.is_registered(),
        ensures
            s.notify_event_spec(ready) == Err::<Event, NotifyError>(NotifyError::NotRegistered),
    {
    }
}

impl Evented for RegistrationState {
    /// Registering fails where the registration is registered already, and
    /// leaves it as it was; otherwise it is registered under `id` with
    /// `interests`. The poller is not changed.
    open spec fn registered(
        before: Self,
        after: Self,
        poller_before: Poller,
        poller_after: Poller,
        id: EventedId,
        interests: Ready,
        opt: PollOption,
        r: Result<(), RegisterError>,
    ) -> bool {
        &&& poller_after == poller_before
        &&& before.is_registered() ==> r == Err::<(), RegisterError>(RegisterError::RegisteredTwice)
            && after == before
        &&& !before.is_registered() ==> r is Ok && after.id_spec() == id && after.interests_spec() == interests
            && after.was_registered()
    }

    /// Reregistering fails where the registration was never registered, and
    /// leaves it as it was; otherwise it is registered under `id` with
    /// `interests`. The poller is not changed.
    open spec fn reregistered(
        before: Self,
        after: Self,
        poller_before: Poller,
        poller_after: Poller,
        id: EventedId,
        interests: Ready,
        opt: PollOption,
        r: Result<(), RegisterError>,
    ) -> bool {
        &&& poller_after == poller_before
        &&& !before.was_registered() ==> r == Err::<(), RegisterError>(RegisterError::ReregisterFirst)
            && after == before
        &&& before.was_registered() ==> r is Ok && after.id_spec() == id && after.interests_spec() == interests
            && after.was_registered()
    }

    /// Deregistering fails where the registration is not registered, and
    /// leaves it as it was; otherwise it is no longer registered and has no
    /// interests. The poller is not changed.
    open spec fn deregistered(
        before: Self,
        after: Self,
        poller_before: Poller,
        poller_after: Poller,
        r: Result<(), RegisterError>,
    ) -> bool {
        &&& poller_after == poller_before
        &&& !before.is_registered() ==> r == Err::<(), RegisterError>(RegisterError::DeregisterFirst)
            && after == before
        &&& before.is_registered() ==> r is Ok && !after.is_registered() && after.interests_spec().bits() == 0
            && after.was_registered()
    }

    fn register(&mut self, poller: &mut Poller, id: EventedId, interests: Ready, opt: PollOption) -> (r: Result<(), RegisterError>) {
        self.register_state(id, interests)
    }

    fn reregister(&mut self, poller: &mut Poller, id: EventedId, interests: Ready, opt: PollOption) -> (r: Result<(), RegisterError>) {
        self.reregister_state(id, interests)
    }

    fn deregister(&mut self, poller: &mut Poller) -> (r: Result<(), RegisterError>) {
        self.deregister_state()
    }
}

} // verus!
