use mio_st::event::{Capacity, Event, Id, Ready};
use mio_st::os::epoll::{contains_flag, duration_to_millis, event_from_epoll, events_from_epoll, to_epoll_events, wait_capacity, EVENTS_CAP};
use mio_st::os::{Interests, RegisterOption};
use mio_st::time::Duration;

#[test]
fn epoll_registration_masks() {
    let base = (libc::EPOLLPRI | libc::EPOLLRDHUP) as u32;
    assert_eq!(to_epoll_events(Interests::readable(), RegisterOption::level()), base | libc::EPOLLIN as u32);
    assert_eq!(to_epoll_events(Interests::writable(), RegisterOption::level()), base | libc::EPOLLOUT as u32);
    assert_eq!(
        to_epoll_events(Interests::both(), RegisterOption::edge()),
        base | (libc::EPOLLIN | libc::EPOLLOUT) as u32 | libc::EPOLLET as u32,
    );
    assert_eq!(
        to_epoll_events(Interests::readable(), RegisterOption::oneshot()),
        base | libc::EPOLLIN as u32 | libc::EPOLLONESHOT as u32,
    );
    assert_eq!(
        to_epoll_events(Interests::readable(), RegisterOption::edge() | RegisterOption::oneshot()),
        base | libc::EPOLLIN as u32 | libc::EPOLLET as u32 | libc::EPOLLONESHOT as u32,
    );
}

#[test]
fn epoll_event_readiness() {
    assert_eq!(event_from_epoll(5, libc::EPOLLIN as u32), Event::new(Id(5), Ready::readable()));
    assert_eq!(event_from_epoll(6, libc::EPOLLPRI as u32), Event::new(Id(6), Ready::readable()));
    assert_eq!(event_from_epoll(7, libc::EPOLLOUT as u32), Event::new(Id(7), Ready::writable()));
    assert_eq!(event_from_epoll(8, libc::EPOLLERR as u32), Event::new(Id(8), Ready::error()));
    assert_eq!(event_from_epoll(9, libc::EPOLLHUP as u32), Event::new(Id(9), Ready::hup()));
    assert_eq!(event_from_epoll(9, libc::EPOLLRDHUP as u32), Event::new(Id(9), Ready::hup()));
    let all = (libc::EPOLLIN | libc::EPOLLOUT | libc::EPOLLERR | libc::EPOLLHUP) as u32;
    let event = event_from_epoll(1, all);
    let r = event.readiness();
    assert!(r.is_readable() && r.is_writable() && r.is_error() && r.is_hup());
    assert!(!r.is_timer());
    assert_eq!(event_from_epoll(3, 0).readiness(), Ready::empty());
}

#[test]
fn epoll_flags() {
    assert!(contains_flag(0b101, 0b100));
    assert!(!contains_flag(0b101, 0b010));
    assert!(contains_flag(0b101, 0b110));
}

#[test]
fn epoll_timeout_millis() {
    assert_eq!(duration_to_millis(Duration::zero()), 0);
    assert_eq!(duration_to_millis(Duration::from_nanos(1_999_999)), 1);
    assert_eq!(duration_to_millis(Duration::from_secs(2)), 2_000);
    assert_eq!(duration_to_millis(Duration::from_secs(86_400)), 86_400_000);
    assert_eq!(duration_to_millis(Duration::from_secs(86_401)), 86_400_000);
    assert_eq!(duration_to_millis(Duration::max_value()), 86_400_000);
}

#[test]
fn epoll_wait_capacity() {
    assert_eq!(EVENTS_CAP, 128);
    assert_eq!(wait_capacity(Capacity::Growable), 128);
    assert_eq!(wait_capacity(Capacity::Limited(5)), 5);
    assert_eq!(wait_capacity(Capacity::Limited(0)), 0);
    assert_eq!(wait_capacity(Capacity::Limited(1_000)), 128);
}

#[test]
fn epoll_events_in_order() {
    let raw = vec![(1u64, libc::EPOLLIN as u32), (2u64, libc::EPOLLOUT as u32), (3u64, 0u32)];
    assert_eq!(events_from_epoll(&raw), vec![
        Event::new(Id(1), Ready::readable()),
        Event::new(Id(2), Ready::writable()),
        Event::new(Id(3), Ready::empty()),
    ]);
    assert!(events_from_epoll(&[]).is_empty());
}
