use std::sync::atomic::Ordering;

use mio_st::atomic_state::AtomicState;
use mio_st::deadlines::{deadline_le_exec, Deadline, DeadlineQueue};
use mio_st::poll::event::{DEFAULT_EVENTS_CAPACITY, INVALID_ID};
use mio_st::poll::{Event, EventedId, Events, Poller, Ready, RegisterError, Token};
use mio_st::readiness;
use mio_st::registration::{NotifyError, RegistrationGone, RegistrationState};
use mio_st::selector_id::{AlreadyAssociated, SelectorId};
use mio_st::time::Duration;

fn ids(events: &mut Events) -> Vec<usize> {
    let mut out = Vec::new();
    while let Some(event) = events.next() {
        out.push(event.id().0);
    }
    out
}

#[test]
fn deadline_queue_order() {
    let mut queue = DeadlineQueue::new();
    assert_eq!(queue.first(), None);
    queue.add(Deadline { deadline: 30, id: 1 });
    queue.add(Deadline { deadline: 10, id: 5 });
    queue.add(Deadline { deadline: 10, id: 2 });
    queue.add(Deadline { deadline: 20, id: 9 });
    assert_eq!(queue.len(), 4);
    assert_eq!(queue.first(), Some(Deadline { deadline: 10, id: 2 }));

    // At most two, and only the expired ones.
    let expired = queue.pop_expired(25, 2);
    assert_eq!(expired, vec![Deadline { deadline: 10, id: 2 }, Deadline { deadline: 10, id: 5 }]);
    let expired = queue.pop_expired(25, 10);
    assert_eq!(expired, vec![Deadline { deadline: 20, id: 9 }]);
    assert_eq!(queue.len(), 1);
    assert_eq!(queue.pop_expired(29, 10), vec![]);

    queue.remove_id(1);
    assert_eq!(queue.len(), 0);
}

#[test]
fn deadline_order_ties_by_id() {
    let a = Deadline { deadline: 5, id: 1 };
    let b = Deadline { deadline: 5, id: 2 };
    let c = Deadline { deadline: 4, id: 9 };
    assert!(deadline_le_exec(&a, &b));
    assert!(!deadline_le_exec(&b, &a));
    assert!(deadline_le_exec(&c, &a));
    assert!(deadline_le_exec(&a, &a));
}

#[test]
fn events_container() {
    let mut events = Events::with_capacity(2);
    assert!(events.is_empty());
    assert_eq!(events.capacity(), 2);
    assert_eq!(events.capacity_left(), 2);
    events.push(Event::new(EventedId(1), Ready::readable()));
    assert_eq!(events.len(), 1);
    assert_eq!(events.capacity_left(), 1);
    let added = events.extend_events(&[
        Event::new(EventedId(2), Ready::writable()),
        Event::new(EventedId(3), Ready::writable()),
    ]);
    // Only one fits.
    assert_eq!(added, 1);
    assert_eq!(events.len(), 2);
    assert_eq!(events.get(1), Some(Event::new(EventedId(2), Ready::writable())));
    assert_eq!(events.get(2), None);
    assert_eq!(ids(&mut events), vec![1, 2]);
    assert_eq!(events.next(), None);
    events.clear();
    assert!(events.is_empty());
    assert_eq!(events.capacity(), 2);

    assert_eq!(Events::new().capacity(), DEFAULT_EVENTS_CAPACITY);
}

#[test]
fn old_ready_contains_all_flags() {
    let rw = Ready::readable() | Ready::writable();
    assert!(rw.contains(Ready::readable()));
    assert!(rw.contains(rw));
    assert!(!rw.contains(Ready::readable() | Ready::error()));
    assert!(!Ready::readable().contains(rw));
    assert!(!rw.contains(Ready::error()));
    assert!(rw.contains(Ready::empty()));
    assert!(rw.intersects(Ready::writable()));
    assert_eq!(rw.intersection(Ready::writable() | Ready::hup()), Ready::writable());
    assert!(Ready::empty().is_empty());
    let all = Ready::all();
    assert!(all.is_readable() && all.is_writable() && all.is_error() && all.is_timer() && all.is_hup());
}

#[test]
fn evented_ids_and_tokens() {
    assert_eq!(EventedId::invalid(), EventedId(INVALID_ID));
    assert!(!EventedId::invalid().is_valid());
    assert!(EventedId(0).is_valid());
    assert_eq!(EventedId::from(4), EventedId(4));
    assert_eq!(usize::from(EventedId(4)), 4);
    assert_eq!(Token::from(7), Token(7));
    assert_eq!(usize::from(Token(7)), 7);
}

#[test]
fn poller_timeouts_at_fixed_times() {
    let mut poller = Poller::new();
    let wait = Some(Duration::from_nanos(1_000));
    // Nothing waiting: the provided timeout.
    assert_eq!(poller.determine_timeout_at(wait, 0), wait);
    assert_eq!(poller.determine_timeout_at(None, 0), None);

    poller.add_deadline_nanos(EventedId(1), 500);
    // The deadline is sooner than the provided timeout.
    assert_eq!(poller.determine_timeout_at(wait, 100), Some(Duration::from_nanos(400)));
    assert_eq!(poller.determine_timeout_at(None, 100), Some(Duration::from_nanos(400)));
    // The provided timeout is sooner.
    assert_eq!(poller.determine_timeout_at(Some(Duration::from_nanos(10)), 100), Some(Duration::from_nanos(10)));
    // The deadline has passed.
    assert_eq!(poller.determine_timeout_at(wait, 600), Some(Duration::zero()));

    // User space events waiting: no blocking.
    poller.notify(EventedId(2), Ready::readable()).unwrap();
    assert_eq!(poller.determine_timeout_at(wait, 0), Some(Duration::zero()));
}

#[test]
fn poller_timeout_after_interrupt() {
    let ten = Duration::from_nanos(10);
    let four = Duration::from_nanos(4);
    assert_eq!(Poller::timeout_after_interrupt(None, four), Some(None));
    assert_eq!(Poller::timeout_after_interrupt(Some(ten), four), Some(Some(Duration::from_nanos(6))));
    assert_eq!(Poller::timeout_after_interrupt(Some(ten), ten), None);
    assert_eq!(Poller::timeout_after_interrupt(Some(four), ten), None);
}

#[test]
fn poller_collects_deadlines_then_userspace() {
    let mut poller = Poller::new();
    poller.notify(EventedId(10), Ready::readable()).unwrap();
    poller.notify(EventedId(11), Ready::writable()).unwrap();
    poller.add_deadline_nanos(EventedId(1), 5);
    poller.add_deadline_nanos(EventedId(2), 50);

    let mut events = Events::with_capacity(2);
    poller.poll_userspace_at(&mut events, 10);
    // The passed deadline first, then the oldest user space event; the
    // rest does not fit and waits.
    assert_eq!(events.get(0), Some(Event::new(EventedId(1), Ready::timer())));
    assert_eq!(events.get(1), Some(Event::new(EventedId(10), Ready::readable())));
    assert_eq!(events.len(), 2);

    poller.poll_userspace_at(&mut events, 100);
    assert_eq!(ids(&mut events), vec![2, 11]);

    poller.poll_userspace_at(&mut events, 1_000);
    assert!(events.is_empty());

    // Collecting adds to what the container holds.
    let mut events = Events::with_capacity(4);
    events.push(Event::new(EventedId(99), Ready::hup()));
    poller.notify(EventedId(12), Ready::readable()).unwrap();
    poller.collect_at(&mut events, 0);
    assert_eq!(ids(&mut events), vec![99, 12]);
}

#[test]
fn poller_remove_deadline() {
    let mut poller = Poller::new();
    poller.add_deadline_nanos(EventedId(1), 10);
    poller.add_deadline_nanos(EventedId(1), 20);
    poller.remove_deadline(EventedId(1)).unwrap();
    poller.remove_deadline(EventedId(3)).unwrap();
    let mut events = Events::with_capacity(8);
    poller.poll_userspace_at(&mut events, 15);
    assert!(events.is_empty());
    poller.poll_userspace_at(&mut events, 25);
    assert_eq!(ids(&mut events), vec![1]);
}

#[test]
fn registration_state_machine() {
    let mut state = RegistrationState::new();
    assert_eq!(state.interests(), Ready::empty());
    assert_eq!(state.notify_event(Ready::readable()), Err(NotifyError::NotRegistered));
    assert_eq!(state.reregister_state(EventedId(1), Ready::readable()), Err(RegisterError::ReregisterFirst));
    assert_eq!(state.deregister_state(), Err(RegisterError::DeregisterFirst));

    state.register_state(EventedId(1), Ready::readable() | Ready::error()).unwrap();
    assert_eq!(state.register_state(EventedId(2), Ready::readable()), Err(RegisterError::RegisteredTwice));
    assert_eq!(state.notify_event(Ready::empty()), Err(NotifyError::EmptyReadiness));
    assert_eq!(state.notify_event(Ready::writable()), Err(NotifyError::NoInterest));
    assert_eq!(
        state.notify_event(Ready::readable() | Ready::writable()),
        Ok(Event::new(EventedId(1), Ready::readable())),
    );

    state.deregister_state().unwrap();
    assert_eq!(state.notify_event(Ready::readable()), Err(NotifyError::NotRegistered));
    // The interests are emptied; having been registered, it can be
    // reregistered.
    assert_eq!(state.interests(), Ready::empty());
    state.reregister_state(EventedId(3), Ready::writable()).unwrap();

    let mut poller = Poller::new();
    state.notify(&mut poller, Ready::writable()).unwrap();
    assert_eq!(state.notify(&mut poller, Ready::hup()), Err(NotifyError::NoInterest));
    let mut events = Events::with_capacity(4);
    poller.poll_userspace_at(&mut events, 0);
    assert_eq!(ids(&mut events), vec![3]);
}

#[test]
fn error_descriptions() {
    assert_eq!(RegisterError::InvalidId.description(), "invalid evented id");
    assert_eq!(RegisterError::EmptyInterests.description(), "empty interests");
    assert!(RegisterError::RegisteredTwice.description().contains("cannot register"));
    assert!(RegisterError::ReregisterFirst.description().contains("cannot reregister"));
    assert!(RegisterError::DeregisterFirst.description().contains("cannot deregister"));
    assert_eq!(NotifyError::NotRegistered.description(), "accompanying registration is not registered");
    assert_eq!(NotifyError::EmptyReadiness.description(), "readiness is empty");
    assert_eq!(NotifyError::NoInterest.description(), "accompanying registration has no interest in the event");
    assert_eq!(NotifyError::RegistrationGone.description(), "accompanying registration is gone");
    assert_eq!(NotifyError::PollGone.description(), "poll instance registered to is gone");
    assert_eq!(RegistrationGone.description(), "accompanying registration is gone");
    assert_eq!(AlreadyAssociated.description(), "socket already registered");
}

#[test]
fn selector_association() {
    assert!(SelectorId::may_associate(0, 3));
    assert!(SelectorId::may_associate(3, 3));
    assert!(!SelectorId::may_associate(4, 3));

    let id = SelectorId::new();
    assert_eq!(id.associate_selector(3), Ok(()));
    assert_eq!(id.associate_selector(3), Ok(()));
    assert_eq!(id.associate_selector(4), Err(AlreadyAssociated));
    let copy = id.clone();
    assert_eq!(copy.associate_selector(4), Err(AlreadyAssociated));
}

#[test]
fn atomic_state_dropping() {
    let state = AtomicState::new(readiness::Ready::readable(), readiness::PollOpt::edge());
    let loaded = state.load(Ordering::SeqCst);
    assert_eq!(loaded.interest(), readiness::Ready::readable());
    assert!(!loaded.is_queued());
    // Not queued before: it has to be queued now.
    assert!(state.flag_as_dropped());
    let loaded = state.load(Ordering::SeqCst);
    assert!(loaded.is_dropped() && loaded.is_queued());
    // Queued already.
    assert!(!state.flag_as_dropped());
}
