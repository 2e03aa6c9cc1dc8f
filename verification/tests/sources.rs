use std::time::Instant;

use mio_st::event::{Capacity, Event, Id, Ready, Sink, Source};
use mio_st::time::Duration;
use mio_st::timers::Timers;
use mio_st::user_space::Queue;
use mio_st::{combine_timeouts, min_timeout};

fn millis(ms: u64) -> Duration {
    Duration::from_millis(ms)
}

#[test]
fn queue_poll_example() {
    let mut queue = Queue::new();
    let mut events: Vec<Event> = Vec::new();

    let event = Event::new(Id(0), Ready::readable());
    queue.add(event);

    {
        let sources: &mut [&mut dyn Source<Vec<Event>, ()>] = &mut [&mut queue];
        mio_st::poll::<Vec<Event>, ()>(sources, &mut events, None).unwrap();
    }

    assert_eq!(events.get(0), Some(&event));
    assert_eq!(events.len(), 1);
}

#[test]
fn queue_events_come_out_in_order() {
    let mut queue = Queue::default();
    assert_eq!(queue.max_timeout(), None);
    for n in 0..5 {
        queue.add(Event::new(Id(n), Ready::readable()));
    }
    assert_eq!(queue.max_timeout(), Some(Duration::zero()));

    let mut events: Vec<Event> = Vec::new();
    queue.poll_into(&mut events);
    let ids: Vec<usize> = events.iter().map(|e| e.id().0).collect();
    assert_eq!(ids, vec![0, 1, 2, 3, 4]);
    assert_eq!(queue.max_timeout(), None);

    // Polling an empty queue adds nothing.
    queue.poll_into(&mut events);
    assert_eq!(events.len(), 5);
}

#[test]
fn vec_sink_is_growable() {
    let mut events: Vec<Event> = Vec::new();
    assert_eq!(events.capacity_left(), Capacity::Growable);
    Sink::add(&mut events, Event::new(Id(1), Ready::timer()));
    Sink::extend(&mut events, vec![Event::new(Id(2), Ready::hup())]);
    assert_eq!(events, vec![Event::new(Id(1), Ready::timer()), Event::new(Id(2), Ready::hup())]);
}

#[test]
fn capacity_min() {
    assert_eq!(Capacity::Growable.min(7), 7);
    assert_eq!(Capacity::Limited(3).min(7), 3);
    assert_eq!(Capacity::Limited(9).min(7), 7);
}

#[test]
fn timers_poll_example() {
    let mut timers = Timers::new();
    let mut events: Vec<Event> = Vec::new();

    let id = Id(0);
    timers.add_deadline(id, Instant::now());

    {
        let sources: &mut [&mut dyn Source<Vec<Event>, ()>] = &mut [&mut timers];
        mio_st::poll::<Vec<Event>, ()>(sources, &mut events, None).unwrap();
    }

    assert_eq!(events.get(0), Some(&Event::new(id, Ready::timer())));
}

#[test]
fn timers_order_and_expiry_at_fixed_times() {
    let mut timers = Timers::default();
    timers.add_deadline_nanos(Id(3), 300);
    timers.add_deadline_nanos(Id(1), 100);
    timers.add_deadline_nanos(Id(2), 100);
    timers.add_deadline_nanos(Id(0), 200);

    assert_eq!(timers.timeout_at(50), Some(Duration::from_nanos(50)));
    assert_eq!(timers.timeout_at(100), Some(Duration::zero()));

    let mut events: Vec<Event> = Vec::new();
    // Nothing has passed yet.
    timers.poll_at(&mut events, 99);
    assert!(events.is_empty());

    // The same deadline: ordered by id.
    timers.poll_at(&mut events, 150);
    assert_eq!(events, vec![Event::new(Id(1), Ready::timer()), Event::new(Id(2), Ready::timer())]);
    assert_eq!(timers.timeout_at(150), Some(Duration::from_nanos(50)));

    timers.poll_at(&mut events, 1_000);
    assert_eq!(events.len(), 4);
    assert_eq!(events[2], Event::new(Id(0), Ready::timer()));
    assert_eq!(events[3], Event::new(Id(3), Ready::timer()));
    assert_eq!(timers.timeout_at(1_000), None);
    assert_eq!(timers.next_event_available(), None);
}

#[test]
fn timers_remove_deadline() {
    let mut timers = Timers::new();
    timers.add_deadline_nanos(Id(1), 10);
    timers.add_deadline_nanos(Id(1), 20);
    timers.add_deadline_nanos(Id(2), 30);
    // Removes the first deadline with the id only.
    timers.remove_deadline(Id(1));
    // An id without deadline changes nothing.
    timers.remove_deadline(Id(7));

    let mut events: Vec<Event> = Vec::new();
    timers.poll_at(&mut events, 15);
    assert!(events.is_empty());
    timers.poll_at(&mut events, 100);
    assert_eq!(events, vec![Event::new(Id(1), Ready::timer()), Event::new(Id(2), Ready::timer())]);
}

#[test]
fn timers_add_timeout() {
    let mut timers = Timers::new();
    assert_eq!(timers.next_event_available(), None);
    assert_eq!(timers.max_timeout(), None);
    timers.add_timeout(Id(4), millis(1_000));
    assert!(timers.max_timeout().is_some());
    let left = timers.next_event_available().unwrap();
    assert!(left.le(&millis(1_000)));
    assert!(millis(900).lt(&left));

    let mut events: Vec<Event> = Vec::new();
    Source::<Vec<Event>, ()>::poll(&mut timers, &mut events).unwrap();
    assert!(events.is_empty());
}

#[test]
fn timers_deadline_after() {
    assert_eq!(Timers::deadline_after(-5, Duration::from_nanos(15)), 10);
    assert_eq!(Timers::deadline_after(100, Duration::from_secs(1)), 1_000_000_100);
}

#[test]
fn poll_uses_smallest_timeout_and_all_sources() {
    let mut queue = Queue::new();
    let mut timers = Timers::new();
    queue.add(Event::new(Id(1), Ready::readable()));
    timers.add_deadline(Id(2), Instant::now());

    let mut events: Vec<Event> = Vec::new();
    let start = Instant::now();
    {
        let sources: &mut [&mut dyn Source<Vec<Event>, ()>] = &mut [&mut queue, &mut timers];
        mio_st::poll::<Vec<Event>, ()>(sources, &mut events, Some(millis(10_000))).unwrap();
    }
    assert!(start.elapsed() < std::time::Duration::from_secs(1));
    assert_eq!(events, vec![Event::new(Id(1), Ready::readable()), Event::new(Id(2), Ready::timer())]);
}

#[test]
fn poll_without_sources() {
    let mut events: Vec<Event> = Vec::new();
    let sources: &mut [&mut dyn Source<Vec<Event>, ()>] = &mut [];
    mio_st::poll::<Vec<Event>, ()>(sources, &mut events, None).unwrap();
    assert!(events.is_empty());
}

#[test]
fn min_timeout_values() {
    assert_eq!(min_timeout(None, None), None);
    assert_eq!(min_timeout(Some(millis(1)), None), Some(millis(1)));
    assert_eq!(min_timeout(None, Some(millis(2))), Some(millis(2)));
    assert_eq!(min_timeout(Some(millis(3)), Some(millis(2))), Some(millis(2)));
    assert_eq!(min_timeout(Some(millis(1)), Some(millis(2))), Some(millis(1)));
}

#[test]
fn combine_timeouts_is_smallest() {
    assert_eq!(combine_timeouts(None, &vec![]), None);
    assert_eq!(combine_timeouts(Some(millis(5)), &vec![]), Some(millis(5)));
    assert_eq!(combine_timeouts(None, &vec![None, Some(millis(7)), None, Some(millis(3))]), Some(millis(3)));
    assert_eq!(combine_timeouts(Some(millis(2)), &vec![Some(millis(7)), None]), Some(millis(2)));
    assert_eq!(combine_timeouts(None, &vec![None, None]), None);
}
