use mio_st::poll::{Event, EventedId, Ready};

#[test]
fn id_event() {
    let id = EventedId(0);
    assert_eq!(EventedId::from(0), EventedId(0));
    assert_eq!(usize::from(id), 0);
    assert_eq!(id.0, 0);
    assert_eq!(id, id.clone());

    let max_value = usize::max_value();
    let id = EventedId(max_value);
    assert_eq!(EventedId::from(max_value), EventedId(max_value));
    assert_eq!(usize::from(id), max_value);
    assert_eq!(id.0, max_value);
    assert_eq!(id, id.clone());
}

#[test]
fn mod_event() {
    let event = Event::new(EventedId(0), Ready::readable());
    assert_eq!(event.id(), EventedId(0));
    assert_eq!(event.readiness(), Ready::readable());
}

#[test]
fn equality() {
    let event = Event::new(EventedId(0), Ready::writable());
    assert_eq!(event, event.clone());

    // Same
    let event2 = Event::new(EventedId(0), Ready::writable());
    assert_eq!(event, event2);

    // Different id.
    let event3 = Event::new(EventedId(1), Ready::writable());
    assert_ne!(event, event3);

    // Different readiness.
    let event4 = Event::new(EventedId(0), Ready::readable());
    assert_ne!(event, event4);
}

#[test]
fn ready_is_tests() {
    assert!(!Ready::empty().is_readable());
    assert!(!Ready::empty().is_writable());
    assert!(!Ready::empty().is_error());
    assert!(!Ready::empty().is_timer());
    assert!(!Ready::empty().is_hup());

    assert!(Ready::readable().is_readable());
    assert!(!Ready::readable().is_writable());
    assert!(!Ready::readable().is_error());
    assert!(!Ready::readable().is_timer());
    assert!(!Ready::readable().is_hup());

    assert!(!Ready::writable().is_readable());
    assert!(Ready::writable().is_writable());
    assert!(!Ready::writable().is_error());
    assert!(!Ready::writable().is_timer());
    assert!(!Ready::writable().is_hup());

    assert!(!Ready::error().is_readable());
    assert!(!Ready::error().is_writable());
    assert!(Ready::error().is_error());
    assert!(!Ready::error().is_timer());
    assert!(!Ready::error().is_hup());

    assert!(!Ready::timer().is_readable());
    assert!(!Ready::timer().is_writable());
    assert!(!Ready::timer().is_error());
    assert!(Ready::timer().is_timer());
    assert!(!Ready::timer().is_hup());

    assert!(!Ready::hup().is_readable());
    assert!(!Ready::hup().is_writable());
    assert!(!Ready::hup().is_error());
    assert!(!Ready::hup().is_timer());
    assert!(Ready::hup().is_hup());
}

#[test]
fn ready_bit_or() {
    let readiness = Ready::readable() | Ready::writable() | Ready::error();
    assert!(readiness.is_readable());
    assert!(readiness.is_writable());
    assert!(readiness.is_error());
    assert!(!readiness.is_timer());
    assert!(!readiness.is_hup());
}

#[test]
fn bit_or_assign() {
    let mut readiness = Ready::readable();
    readiness |= Ready::writable();
    assert!(readiness.is_readable());
    assert!(readiness.is_writable());
    assert!(!readiness.is_error());
    assert!(!readiness.is_timer());
    assert!(!readiness.is_hup());
}

#[test]
fn ready_fmt_debug() {
    assert_eq!(Ready::readable().debug_text(), "READABLE");
    assert_eq!(Ready::writable().debug_text(), "WRITABLE");
    assert_eq!(Ready::error().debug_text(), "ERROR");
    assert_eq!(Ready::timer().debug_text(), "TIMER");
    assert_eq!(Ready::hup().debug_text(), "HUP");

    assert_eq!(Ready::empty().debug_text(), "(empty)");

    assert_eq!((Ready::readable() | Ready::writable()).debug_text(), "READABLE | WRITABLE");
    assert_eq!((Ready::error() | Ready::timer()).debug_text(), "ERROR | TIMER");
    assert_eq!((Ready::readable() | Ready::writable() | Ready::error() | Ready::timer()).debug_text(),
        "READABLE | WRITABLE | ERROR | TIMER");
}

#[test]
fn event_event() {
    let event = Event::new(EventedId(0), Ready::all());
    assert_eq!(event.id(), EventedId(0));
    assert_eq!(event.readiness(), Ready::all());
}
