use std::time::{Duration, Instant};

use mio_st::poll::{Event, EventedId, Events, PollOpt, PollOption, Poller, Ready};
use mio_st::registration::{NotifyError, RegistrationState};
use mio_st::time;
use mio_st::timer::Timer;

/// Allowed margin for a poll to return.
const MARGIN_MS: u64 = 10;

fn millis(ms: u64) -> time::Duration {
    time::Duration::from_millis(ms)
}

fn to_time(d: Duration) -> time::Duration {
    time::Duration::new(d.as_secs(), d.subsec_nanos())
}

fn to_std(d: time::Duration) -> Duration {
    Duration::new(d.as_secs(), d.subsec_nanos())
}

fn init_with_poll(capacity: usize) -> (Poller, Events) {
    (Poller::new(), Events::with_capacity(capacity))
}

/// Polls `poll` as a poll with a system selector that reports no events
/// does: it waits for the timeout the poller determines, then takes the user
/// space events and the passed deadlines.
fn poll_for(poll: &mut Poller, events: &mut Events, timeout: Option<Duration>) {
    let wait = poll.determine_timeout(timeout.map(to_time)).map(to_std);
    if let Some(wait) = wait {
        let start = Instant::now();
        while start.elapsed() < wait {
            std::hint::spin_loop();
        }
    }
    poll.poll_userspace(events);
}

/// Poll and compare the retrieved events with the `expected` ones.
fn expect_events(poll: &mut Poller, events: &mut Events, poll_try_count: usize, mut expected: Vec<Event>) {
    let timeout = Duration::from_millis(1_000);

    for _ in 0..poll_try_count {
        poll_for(poll, events, Some(timeout));

        while let Some(event) = events.next() {
            let pos = expected.iter()
                .position(|exp_event| {
                    event.id() == exp_event.id() &&
                    event.readiness().contains(exp_event.readiness())
                });

            if let Some(pos) = pos {
                expected.remove(pos);
            }
        }

        if expected.is_empty() {
            break;
        }
    }

    assert!(expected.is_empty(), "The following expected events were not found: {:?}", expected);
}

/// A wrapper around `expect_events` that checks that the elapsed time
/// doesn't exceed `max_elapsed`, runs a single poll.
fn expect_events_elapsed(poll: &mut Poller, events: &mut Events, max_elapsed: Duration, expected: Vec<Event>) {
    let start = Instant::now();
    expect_events(poll, events, 1, expected);
    let elapsed = start.elapsed();
    assert!(elapsed < max_elapsed, "expected poll to return within {:?}, \
            it returned after: {:?}", max_elapsed, elapsed);
}

#[test]
fn deadline_add_deadline() {
    let (mut poll, mut events) = init_with_poll(8);

    poll.add_deadline(EventedId(0), Instant::now()).unwrap();

    expect_events_elapsed(&mut poll, &mut events, Duration::from_millis(MARGIN_MS), vec![
        Event::new(EventedId(0), Ready::timer()),
    ]);
}

#[test]
fn deadline_multiple_timers() {
    let (mut poll, mut events) = init_with_poll(8);

    const T1: u64 = 20;
    const T2: u64 = T1 * 2;
    const T3: u64 = T1 * 3;
    const MAX_ELAPSED: u64 = T1 + MARGIN_MS;

    const TIMEOUTS: [[u64; 3]; 6] = [
        [T1, T2, T3],
        [T1, T3, T2],
        [T2, T1, T3],
        [T2, T3, T1],
        [T3, T1, T2],
        [T3, T2, T1],
    ];

    fn timeout_to_token(timeout: u64) -> EventedId {
        match timeout {
            T1 => EventedId(1),
            T2 => EventedId(2),
            T3 => EventedId(3),
            _ => unreachable!()
        }
    }

    for timeouts in &TIMEOUTS {
        for timeout_ms in timeouts.iter() {
            let token = timeout_to_token(*timeout_ms);
            let first_token = EventedId(token.0 * 100);
            let duration = Instant::now() + Duration::from_millis(*timeout_ms);

            poll.add_deadline(first_token, duration).unwrap();
            poll.remove_deadline(first_token).unwrap();
            poll.add_deadline(token, duration).unwrap();
        }

        for token in 1..4 {
            expect_events_elapsed(&mut poll, &mut events, Duration::from_millis(MAX_ELAPSED), vec![
                Event::new(EventedId(token), Ready::timer()),
            ]);
        }
    }
}

#[test]
fn deadline_multiple_timers_same_deadline() {
    let (mut poll, mut events) = init_with_poll(8);

    let deadline = Instant::now();
    for token in 0..3 {
        poll.add_deadline(EventedId(token), deadline).unwrap();
    }

    expect_events_elapsed(&mut poll, &mut events, Duration::from_millis(10 + MARGIN_MS), vec![
        Event::new(EventedId(0), Ready::timer()),
        Event::new(EventedId(1), Ready::timer()),
        Event::new(EventedId(2), Ready::timer()),
    ]);
}

#[test]
fn multiple_deadline_same_id() {
    let (mut poll, mut events) = init_with_poll(8);

    poll.add_deadline(EventedId(0), Instant::now() + Duration::from_millis(20)).unwrap();
    poll.add_deadline(EventedId(0), Instant::now() + Duration::from_millis(10)).unwrap();

    expect_events_elapsed(&mut poll, &mut events, Duration::from_millis(10 + MARGIN_MS), vec![
        Event::new(EventedId(0), Ready::timer()),
    ]);
    expect_events_elapsed(&mut poll, &mut events, Duration::from_millis(10 + MARGIN_MS), vec![
        Event::new(EventedId(0), Ready::timer()),
    ]);
}

#[test]
fn deadline_poll_should_set_timeout() {
    let (mut poll, mut events) = init_with_poll(8);

    let timeouts = [
        // Should not block.
        (Duration::from_millis(0), Duration::from_millis(MARGIN_MS)),
        // Should set timeout to 20 milliseconds.
        (Duration::from_millis(20), Duration::from_millis(20 + MARGIN_MS)),
        // Should keep the provided 50 milliseconds timeout.
        (Duration::from_millis(100), Duration::from_millis(50 + MARGIN_MS)),
    ];

    for &(timeout, max_elapsed) in &timeouts {
        poll.add_deadline(EventedId(0), Instant::now() + timeout).unwrap();

        let start = Instant::now();
        poll_for(&mut poll, &mut events, Some(Duration::from_millis(50)));
        let elapsed = start.elapsed();

        assert!(elapsed < max_elapsed, "expected poll to return within {:?}, \
                it returned after: {:?}", max_elapsed, elapsed);
    }
}

#[test]
fn notify() {
    let (mut poll, mut events) = init_with_poll(8);

    poll.notify(EventedId(0), Ready::readable()).unwrap();
    poll.notify(EventedId(0), Ready::writable()).unwrap();
    poll.notify(EventedId(0), Ready::readable() | Ready::writable()).unwrap();

    expect_events(&mut poll, &mut events, 1, vec![
        Event::new(EventedId(0), Ready::readable()),
        Event::new(EventedId(0), Ready::writable()),
        Event::new(EventedId(0), Ready::readable() | Ready::writable()),
    ]);
}

#[test]
fn polling_dont_expand_events() {
    const EVENTS_SIZE: usize = 1;
    let (mut poll, mut events) = init_with_poll(EVENTS_SIZE);

    let mut registration = RegistrationState::new();

    poll.register(&mut registration, EventedId(0), Ready::readable(), PollOpt::Edge).unwrap();

    registration.notify(&mut poll, Ready::readable()).unwrap();
    registration.notify(&mut poll, Ready::readable()).unwrap();
    registration.notify(&mut poll, Ready::readable()).unwrap();

    poll.add_deadline(EventedId(1), Instant::now()).unwrap();
    poll.add_deadline(EventedId(2), Instant::now()).unwrap();
    poll.add_deadline(EventedId(3), Instant::now()).unwrap();

    // Since we created events with a capacity of 1, it shouldn't expand that
    // capacity.
    for n in 0..6 {
        poll_for(&mut poll, &mut events, None);

        assert_eq!(events.len(), EVENTS_SIZE);
        match n {
            0..=2 => {
                let id = n + 1;
                assert_eq!(events.next().unwrap(), Event::new(EventedId(id), Ready::timer()));
            },
            _ => assert_eq!(events.next().unwrap(), Event::new(EventedId(0), Ready::readable())),
        }
    }
}

#[test]
fn userspace_registering_deregistering() {
    let (mut poll, mut events) = init_with_poll(8);
    let mut registration = RegistrationState::new();

    poll.register(&mut registration, EventedId(0), Ready::readable(), PollOpt::Edge).unwrap();
    poll.deregister(&mut registration).unwrap();

    assert_eq!(registration.notify(&mut poll, Ready::readable()), Err(NotifyError::NotRegistered));

    expect_events(&mut poll, &mut events, 1, vec![]);
}

#[test]
fn userspace_registering_reregistering() {
    let (mut poll, mut events) = init_with_poll(8);
    let mut registration = RegistrationState::new();

    poll.register(&mut registration, EventedId(0), Ready::readable(), PollOpt::Edge).unwrap();
    poll.reregister(&mut registration, EventedId(1), Ready::writable(), PollOpt::Edge).unwrap();

    assert_eq!(registration.notify(&mut poll, Ready::readable()), Err(NotifyError::NoInterest));
    registration.notify(&mut poll, Ready::writable()).unwrap();

    expect_events(&mut poll, &mut events, 1, vec![
        Event::new(EventedId(1), Ready::writable()),
    ]);
}

#[test]
fn userspace_registering_reregistering_deregistering() {
    let (mut poll, mut events) = init_with_poll(8);
    let mut registration = RegistrationState::new();

    poll.register(&mut registration, EventedId(0), Ready::readable(), PollOpt::Edge).unwrap();
    poll.reregister(&mut registration, EventedId(1), Ready::writable(), PollOpt::Edge).unwrap();
    poll.deregister(&mut registration).unwrap();

    assert_eq!(registration.notify(&mut poll, Ready::writable()), Err(NotifyError::NotRegistered));

    expect_events(&mut poll, &mut events, 1, vec![]);
}

#[test]
fn userspace_registering_deregistering_registering() {
    let (mut poll, mut events) = init_with_poll(8);
    let mut registration = RegistrationState::new();

    poll.register(&mut registration, EventedId(0), Ready::readable(), PollOpt::Edge).unwrap();
    poll.deregister(&mut registration).unwrap();
    poll.reregister(&mut registration, EventedId(1), Ready::writable(), PollOpt::Edge).unwrap();

    assert_eq!(registration.notify(&mut poll, Ready::readable()), Err(NotifyError::NoInterest));
    registration.notify(&mut poll, Ready::writable()).unwrap();

    expect_events(&mut poll, &mut events, 1, vec![
        Event::new(EventedId(1), Ready::writable()),
    ]);
}

#[test]
fn userspace_reregistering() {
    let (mut poll, mut events) = init_with_poll(8);
    let mut registration = RegistrationState::new();

    let result = poll.reregister(&mut registration, EventedId(1), Ready::writable(), PollOpt::Edge);
    assert!(result.is_err());
    assert!(result.unwrap_err().description().contains("cannot reregister"));

    assert_eq!(registration.notify(&mut poll, Ready::readable()), Err(NotifyError::NotRegistered));

    expect_events(&mut poll, &mut events, 1, vec![]);
}

#[test]
fn userspace_deregistering() {
    let (mut poll, mut events) = init_with_poll(8);
    let mut registration = RegistrationState::new();

    let result = poll.deregister(&mut registration);
    assert!(result.is_err());
    assert!(result.unwrap_err().description().contains("cannot deregister"));

    assert_eq!(registration.notify(&mut poll, Ready::readable()), Err(NotifyError::NotRegistered));

    expect_events(&mut poll, &mut events, 1, vec![]);
}

#[test]
fn userspace_registering_twice() {
    let (mut poll, mut events) = init_with_poll(8);
    let mut registration = RegistrationState::new();

    poll.register(&mut registration, EventedId(0), Ready::readable(), PollOpt::Edge).unwrap();
    let result = poll.register(&mut registration, EventedId(1), Ready::writable(), PollOpt::Edge);
    assert!(result.is_err());
    assert!(result.unwrap_err().description().contains("cannot register"));

    registration.notify(&mut poll, Ready::readable()).unwrap();

    expect_events(&mut poll, &mut events, 1, vec![
        Event::new(EventedId(0), Ready::readable()),
    ]);
}

#[test]
fn userspace_invalid_id() {
    let (mut poll, mut events) = init_with_poll(8);
    let mut registration = RegistrationState::new();

    let invalid_id = EventedId(usize::max_value());

    let result = poll.register(&mut registration, invalid_id, Ready::readable(), PollOpt::Edge);
    assert!(result.is_err());
    assert!(result.unwrap_err().description().contains("invalid evented id"));
    expect_events(&mut poll, &mut events, 1, vec![]);

    poll.register(&mut registration, EventedId(0), Ready::readable(), PollOpt::Edge).unwrap();

    let result = poll.reregister(&mut registration, invalid_id, Ready::readable(), PollOpt::Edge);
    assert!(result.is_err());
    assert!(result.unwrap_err().description().contains("invalid evented id"));
    expect_events(&mut poll, &mut events, 1, vec![]);
}

#[test]
fn userspace_empty_interests() {
    let (mut poll, mut events) = init_with_poll(8);
    let mut registration = RegistrationState::new();

    let result = poll.register(&mut registration, EventedId(0), Ready::empty(), PollOpt::Edge);
    assert!(result.is_err());
    assert!(result.unwrap_err().description().contains("empty interests"));
    expect_events(&mut poll, &mut events, 1, vec![]);

    poll.register(&mut registration, EventedId(0), Ready::readable(), PollOpt::Edge).unwrap();

    let result = poll.reregister(&mut registration, EventedId(0), Ready::empty(), PollOpt::Edge);
    assert!(result.is_err());
    assert!(result.unwrap_err().description().contains("empty interests"));
    expect_events(&mut poll, &mut events, 1, vec![]);
}

#[test]
fn timer_invalid_id() {
    let (mut poll, mut events) = init_with_poll(8);

    let mut timer = Timer::deadline(Instant::now());
    let result = poll.register(&mut timer, EventedId(usize::max_value()), Ready::timer(), PollOption::Oneshot);
    assert!(result.is_err());
    assert!(result.unwrap_err().description().contains("invalid evented id"));

    expect_events(&mut poll, &mut events, 1, vec![]);
}

#[test]
fn deadline() {
    let (mut poll, mut events) = init_with_poll(8);

    let mut timer = Timer::deadline(Instant::now());
    poll.register(&mut timer, EventedId(0), Ready::timer(), PollOption::Oneshot).unwrap();

    expect_events_elapsed(&mut poll, &mut events, Duration::from_millis(MARGIN_MS), vec![
        Event::new(EventedId(0), Ready::timer()),
    ]);
}

#[test]
fn timeout() {
    let (mut poll, mut events) = init_with_poll(8);

    let mut timer = Timer::timeout(millis(10));
    poll.register(&mut timer, EventedId(0), Ready::timer(), PollOption::Oneshot).unwrap();

    expect_events_elapsed(&mut poll, &mut events, Duration::from_millis(10 + MARGIN_MS), vec![
        Event::new(EventedId(0), Ready::timer()),
    ]);
}

#[test]
fn timer_deregistering() {
    let (mut poll, mut events) = init_with_poll(8);

    let mut timer = Timer::deadline(Instant::now());
    poll.register(&mut timer, EventedId(0), Ready::timer(), PollOption::Oneshot).unwrap();
    poll.deregister(&mut timer).unwrap();

    expect_events(&mut poll, &mut events, 1, vec![]);
}

#[test]
fn timer_multiple_timers() {
    let (mut poll, mut events) = init_with_poll(8);

    const T1: u64 = 20;
    const T2: u64 = T1 * 2;
    const T3: u64 = T1 * 3;
    const MAX_ELAPSED: u64 = T1 + MARGIN_MS;

    const TIMEOUTS: [[u64; 3]; 6] = [
        [T1, T2, T3],
        [T1, T3, T2],
        [T2, T1, T3],
        [T2, T3, T1],
        [T3, T1, T2],
        [T3, T2, T1],
    ];

    fn timeout_to_token(timeout: u64) -> EventedId {
        match timeout {
            T1 => EventedId(1),
            T2 => EventedId(2),
            T3 => EventedId(3),
            _ => unreachable!()
        }
    }

    for timeouts in &TIMEOUTS {
        for timeout_ms in timeouts.iter() {
            let token = timeout_to_token(*timeout_ms);
            let first_token = EventedId(token.0 * 100);

            let mut timer = Timer::timeout(millis(*timeout_ms));

            poll.register(&mut timer, first_token, Ready::timer(), PollOption::Oneshot).unwrap();
            poll.deregister(&mut timer).unwrap();

            poll.register(&mut timer, token, Ready::timer(), PollOption::Oneshot).unwrap();
        }

        for token in 1..4 {
            expect_events_elapsed(&mut poll, &mut events, Duration::from_millis(MAX_ELAPSED), vec![
                Event::new(EventedId(token), Ready::timer()),
            ]);
        }
    }
}

#[test]
fn timer_multiple_timers_same_deadline() {
    let (mut poll, mut events) = init_with_poll(8);

    let mut timer = Timer::deadline(Instant::now());
    for token in 0..3 {
        poll.register(&mut timer, EventedId(token), Ready::timer(), PollOption::Oneshot).unwrap();
    }

    expect_events_elapsed(&mut poll, &mut events, Duration::from_millis(10 + MARGIN_MS), vec![
        Event::new(EventedId(0), Ready::timer()),
        Event::new(EventedId(1), Ready::timer()),
        Event::new(EventedId(2), Ready::timer()),
    ]);
}

#[test]
fn multiple_timers_same_id() {
    let (mut poll, mut events) = init_with_poll(8);

    let mut timer1 = Timer::timeout(millis(20));
    poll.register(&mut timer1, EventedId(0), Ready::timer(), PollOption::Oneshot).unwrap();

    let mut timer2 = Timer::timeout(millis(10));
    poll.register(&mut timer2, EventedId(0), Ready::timer(), PollOption::Oneshot).unwrap();

    expect_events_elapsed(&mut poll, &mut events, Duration::from_millis(10 + MARGIN_MS), vec![
        Event::new(EventedId(0), Ready::timer()),
    ]);
    expect_events_elapsed(&mut poll, &mut events, Duration::from_millis(10 + MARGIN_MS), vec![
        Event::new(EventedId(0), Ready::timer()),
    ]);
}

#[test]
fn timer_poll_should_set_timeout() {
    let (mut poll, mut events) = init_with_poll(8);

    let timeouts = [
        // Should not block.
        (Duration::from_millis(0), Duration::from_millis(MARGIN_MS)),
        // Should set timeout to 20 milliseconds.
        (Duration::from_millis(20), Duration::from_millis(20 + MARGIN_MS)),
        // Should keep the provided 50 milliseconds timeout.
        (Duration::from_millis(100), Duration::from_millis(50 + MARGIN_MS)),
    ];

    for &(timeout, max_elapsed) in &timeouts {
        let mut timer = Timer::timeout(to_time(timeout));
        poll.register(&mut timer, EventedId(0), Ready::timer(), PollOption::Oneshot).unwrap();

        let start = Instant::now();
        poll_for(&mut poll, &mut events, Some(Duration::from_millis(50)));
        let elapsed = start.elapsed();

        assert!(elapsed < max_elapsed, "expected poll to return within {:?}, \
                it returned after: {:?}", max_elapsed, elapsed);
    }
}

#[test]
fn test_timer_add_deadline() {
    let (mut poll, mut events) = init_with_poll(16);

    poll.add_deadline(EventedId(0), Instant::now()).unwrap();

    expect_events_elapsed(&mut poll, &mut events, Duration::from_millis(10), vec![
        Event::new(EventedId(0), Ready::timer()),
    ]);
}

#[test]
fn add_timeout() {
    let (mut poll, mut events) = init_with_poll(16);

    poll.add_deadline_after(EventedId(0), &Instant::now(), millis(10));

    expect_events_elapsed(&mut poll, &mut events, Duration::from_millis(20), vec![
        Event::new(EventedId(0), Ready::timer()),
    ]);
}

#[test]
fn remove_deadline() {
    let (mut poll, mut events) = init_with_poll(16);

    poll.add_deadline_after(EventedId(0), &Instant::now(), millis(10));
    poll.remove_deadline(EventedId(0)).unwrap();

    expect_events(&mut poll, &mut events, 1, vec![]);
    assert!(events.is_empty());
}

#[test]
fn multiple_deadlines() {
    let (mut poll, mut events) = init_with_poll(16);

    const T1: u64 = 20;
    const T2: u64 = T1 * 2;
    const T3: u64 = T1 * 3;
    const MAX_ELAPSED: u64 = T1 + 10;

    const TIMEOUTS: [[u64; 3]; 6] = [
        [T1, T2, T3],
        [T1, T3, T2],
        [T2, T1, T3],
        [T2, T3, T1],
        [T3, T1, T2],
        [T3, T2, T1],
    ];

    fn timeout_to_token(timeout: u64) -> EventedId {
        if timeout == T1 {
            EventedId(1)
        } else if timeout == T2 {
            EventedId(2)
        } else if timeout == T3 {
            EventedId(3)
        } else {
            unreachable!()
        }
    }

    for timers in TIMEOUTS.iter() {
        for timeout_ms in timers.iter() {
            let token = timeout_to_token(*timeout_ms);
            let first_token = EventedId(token.0 * 100);

            let now = Instant::now();
            poll.add_deadline_after(first_token, &now, millis(*timeout_ms));
            poll.remove_deadline(first_token).unwrap();
            poll.add_deadline_after(token, &now, millis(*timeout_ms));
        }

        for token in 1..4 {
            expect_events_elapsed(&mut poll, &mut events, Duration::from_millis(MAX_ELAPSED), vec![
                Event::new(EventedId(token), Ready::timer()),
            ]);
        }
    }
}

#[test]
fn multiple_deadlines_same_deadline() {
    let (mut poll, mut events) = init_with_poll(16);

    let deadline = Instant::now() + Duration::from_millis(20);
    for token in 0..3 {
        poll.add_deadline(EventedId(token), deadline).unwrap();
    }

    expect_events_elapsed(&mut poll, &mut events, Duration::from_millis(30), vec![
        Event::new(EventedId(0), Ready::timer()),
        Event::new(EventedId(1), Ready::timer()),
        Event::new(EventedId(2), Ready::timer()),
    ]);
}
