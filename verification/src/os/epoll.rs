//! Conversions between the library's types and the flags of Linux's epoll.
//!
//! The system calls themselves are made outside this crate; what they take
//! and give is computed here: the event mask of a registration and the
//! readiness event of a reported epoll event.

use vstd::prelude::*;

use crate::event::{Capacity, Event, Id, Ready};
use crate::event::{ERROR_BIT, HUP_BIT, READABLE_BIT, WRITABLE_BIT};
use crate::os::interests::Interests;
use crate::os::option::RegisterOption;
use crate::time::Duration;

verus! {

/// `EPOLLIN`: the file is available for reading.
pub const EPOLLIN_FLAG: u32 = 0x1;

/// `EPOLLPRI`: an exceptional condition, such as urgent data.
pub const EPOLLPRI_FLAG: u32 = 0x2;

/// `EPOLLOUT`: the file is available for writing.
pub const EPOLLOUT_FLAG: u32 = 0x4;

/// `EPOLLERR`: an error condition.
pub const EPOLLERR_FLAG: u32 = 0x8;

/// `EPOLLHUP`: hang up.
pub const EPOLLHUP_FLAG: u32 = 0x10;

/// `EPOLLRDHUP`: the peer closed its end, or shut down writing.
pub const EPOLLRDHUP_FLAG: u32 = 0x2000;

/// `EPOLLONESHOT`: disable the file after one event.
pub const EPOLLONESHOT_FLAG: u32 = 0x4000_0000;

/// `EPOLLET`: edge-triggered notification.
pub const EPOLLET_FLAG: u32 = 0x8000_0000;

/// The longest timeout a selector waits, in milliseconds: a day.
pub const MAX_TIMEOUT_MILLIS: u64 = 86_400_000;

/// The most events one wait of the selector returns.
pub const EVENTS_CAP: usize = 128;

/// `libc::EPOLLIN` as the bits of an event mask.
#[verifier::external_body]
fn epollin() -> (f: u32)
    ensures
        f == EPOLLIN_FLAG,
{
    libc::EPOLLIN as u32
}

/// `libc::EPOLLPRI` as the bits of an event mask.
#[verifier::external_body]
fn epollpri() -> (f: u32)
    ensures
        f == EPOLLPRI_FLAG,
{
    libc::EPOLLPRI as u32
}

/// `libc::EPOLLOUT` as the bits of an event mask.
#[verifier::external_body]
fn epollout() -> (f: u32)
    ensures
        f == EPOLLOUT_FLAG,
{
    libc::EPOLLOUT as u32
}

/// `libc::EPOLLERR` as the bits of an event mask.
#[verifier::external_body]
fn epollerr() -> (f: u32)
    ensures
        f == EPOLLERR_FLAG,
{
    libc::EPOLLERR as u32
}

/// `libc::EPOLLHUP` as the bits of an event mask.
#[verifier::external_body]
fn epollhup() -> (f: u32)
    ensures
        f == EPOLLHUP_FLAG,
{
    libc::EPOLLHUP as u32
}

/// `libc::EPOLLRDHUP` as the bits of an event mask.
#[verifier::external_body]
fn epollrdhup() -> (f: u32)
    ensures
        f == EPOLLRDHUP_FLAG,
{
    libc::EPOLLRDHUP as u32
}

/// `libc::EPOLLONESHOT` as the bits of an event mask.
#[verifier::external_body]
fn epolloneshot() -> (f: u32)
    ensures
        f == EPOLLONESHOT_FLAG,
{
    libc::EPOLLONESHOT as u32
}

/// `libc::EPOLLET` as the bits of an event mask: the sign bit of the
/// `c_int` that `libc` declares.
#[verifier::external_body]
fn epollet() -> (f: u32)
    ensures
        f == EPOLLET_FLAG,
{
    libc::EPOLLET as u32
}

/// The event mask of a registration with `interests` and `opt`: exceptional
/// conditions and peer hang ups always, reading and writing as the interests
/// say, edge-triggered and oneshot as the option says.
pub open spec fn epoll_events_spec(interests: Interests, opt: RegisterOption) -> u32 {
    let base = EPOLLPRI_FLAG | EPOLLRDHUP_FLAG;
    let r = if interests.bits() & crate::os::interests::READABLE_BIT != 0 {
        base | EPOLLIN_FLAG
    } else {
        base
    };
    let w = if interests.bits() & crate::os::interests::WRITABLE_BIT != 0 {
        r | EPOLLOUT_FLAG
    } else {
        r
    };
    let e = if opt.bits() & crate::os::option::EDGE_BIT != 0 {
        w | EPOLLET_FLAG
    } else {
        w
    };
    if opt.bits() & crate::os::option::ONESHOT_BIT != 0 {
        e | EPOLLONESHOT_FLAG
    } else {
        e
    }
}

/// The readiness of an epoll event with the flags `events`.
pub open spec fn epoll_readiness(events: u32) -> u8 {
    let r: u8 = if events & (EPOLLIN_FLAG | EPOLLPRI_FLAG) != 0 {
        READABLE_BIT
    } else {
        0
    };
    let w: u8 = if events & EPOLLOUT_FLAG != 0 {
        r | WRITABLE_BIT
    } else {
        r
    };
    let e: u8 = if events & EPOLLERR_FLAG != 0 {
        w | ERROR_BIT
    } else {
        w
    };
    if events & (EPOLLRDHUP_FLAG | EPOLLHUP_FLAG) != 0 {
        e | HUP_BIT
    } else {
        e
    }
}

/// Whether or not `flags` holds any of the bits of `flag`.
pub fn contains_flag(flags: u32, flag: u32) -> (r: bool)
    ensures
        r == (flags & flag != 0),
{
    flags & flag != 0
}

/// The event mask of a registration asks for exceptional conditions and peer
/// hang ups always, for reading exactly when the interests are readable, for
/// writing exactly when they are writable, for edge-triggered notification
/// exactly when the option is edge and for oneshot notification exactly when
/// it is oneshot, whatever the interests; and for nothing else.
pub proof fn lemma_epoll_events_flags(interests: Interests, opt: RegisterOption)
    ensures
        epoll_events_spec(interests, opt) & EPOLLPRI_FLAG != 0,
        epoll_events_spec(interests, opt) & EPOLLRDHUP_FLAG != 0,
        epoll_events_spec(interests, opt) & EPOLLIN_FLAG != 0 <==> interests.bits()
            & crate::os::interests::READABLE_BIT != 0,
        epoll_events_spec(interests, opt) & EPOLLOUT_FLAG != 0 <==> interests.bits()
            & crate::os::interests::WRITABLE_BIT != 0,
        epoll_events_spec(interests, opt) & EPOLLET_FLAG != 0 <==> opt.bits() & crate::os::option::EDGE_BIT
            != 0,
        epoll_events_spec(interests, opt) & EPOLLONESHOT_FLAG != 0 <==> opt.bits()
            & crate::os::option::ONESHOT_BIT != 0,
        epoll_events_spec(interests, opt) & !(EPOLLIN_FLAG | EPOLLPRI_FLAG | EPOLLOUT_FLAG | EPOLLRDHUP_FLAG
            | EPOLLET_FLAG | EPOLLONESHOT_FLAG) == 0,
{
    let r = interests.bits() & 1u8 != 0;
    let w = interests.bits() & 2u8 != 0;
    let e = opt.bits() & 1u8 != 0;
    let o = opt.bits() & 2u8 != 0;
    let m = epoll_events_spec(interests, opt);
    let a: u32 = if r { 0x2002u32 | 1u32 } else { 0x2002u32 };
    let b: u32 = if w { a | 4u32 } else { a };
    let c: u32 = if e { b | 0x8000_0000u32 } else { b };
    let d: u32 = if o { c | 0x4000_0000u32 } else { c };
    assert(2u32 | 0x2000u32 == 0x2002u32) by (bit_vector);
    assert(m == d);
    assert({
        &&& d & 2u32 != 0
        &&& d & 0x2000u32 != 0
        &&& (d & 1u32 != 0 <==> r)
        &&& (d & 4u32 != 0 <==> w)
        &&& (d & 0x8000_0000u32 != 0 <==> e)
        &&& (d & 0x4000_0000u32 != 0 <==> o)
        &&& d & !(1u32 | 2u32 | 4u32 | 0x2000u32 | 0x8000_0000u32 | 0x4000_0000u32) == 0
    }) by (bit_vector)
        requires
            a == (if r { 0x2002u32 | 1u32 } else { 0x2002u32 }),
            b == (if w { a | 4u32 } else { a }),
            c == (if e { b | 0x8000_0000u32 } else { b }),
            d == (if o { c | 0x4000_0000u32 } else { c }),
    ;
}

/// The readiness of an epoll event is readable exactly when the flags hold
/// input or urgent data, writable exactly when they hold output, error exactly
/// when they hold an error, hang up exactly when they hold a hang up of either
/// kind, and nothing else: each readiness flag is decided by its own epoll
/// flags only.
pub proof fn lemma_epoll_readiness_flags(events: u32)
    ensures
        epoll_readiness(events) & READABLE_BIT != 0 <==> events & (EPOLLIN_FLAG | EPOLLPRI_FLAG) != 0,
        epoll_readiness(events) & WRITABLE_BIT != 0 <==> events & EPOLLOUT_FLAG != 0,
        epoll_readiness(events) & ERROR_BIT != 0 <==> events & EPOLLERR_FLAG != 0,
        epoll_readiness(events) & HUP_BIT != 0 <==> events & (EPOLLRDHUP_FLAG | EPOLLHUP_FLAG) != 0,
        epoll_readiness(events) & !(READABLE_BIT | WRITABLE_BIT | ERROR_BIT | HUP_BIT) == 0,
{
    let i = events & 3u32 != 0;
    let o = events & 4u32 != 0;
    let x = events & 8u32 != 0;
    let h = events & 0x2010u32 != 0;
    let m = epoll_readiness(events);
    let a: u8 = if i { 1u8 } else { 0u8 };
    let b: u8 = if o { a | 2u8 } else { a };
    let c: u8 = if x { b | 4u8 } else { b };
    let d: u8 = if h { c | 16u8 } else { c };
    assert(1u32 | 2u32 == 3u32 && 0x2000u32 | 0x10u32 == 0x2010u32) by (bit_vector);
    assert(m == d);
    assert({
        &&& (d & 1u8 != 0 <==> i)
        &&& (d & 2u8 != 0 <==> o)
        &&& (d & 4u8 != 0 <==> x)
        &&& (d & 16u8 != 0 <==> h)
        &&& d & !(1u8 | 2u8 | 4u8 | 16u8) == 0
    }) by (bit_vector)
        requires
            a == (if i { 1u8 } else { 0u8 }),
            b == (if o { a | 2u8 } else { a }),
            c == (if x { b | 4u8 } else { b }),
            d == (if h { c | 16u8 } else { c }),
    ;
}

/// The event mask to register a file with, for `interests` and `opt`.
pub fn to_epoll_events(interests: Interests, opt: RegisterOption) -> (events: u32)
    ensures
        events == epoll_events_spec(interests, opt),
        events & EPOLLPRI_FLAG != 0 && events & EPOLLRDHUP_FLAG != 0,
        events & EPOLLIN_FLAG != 0 <==> interests.bits() & crate::os::interests::READABLE_BIT != 0,
        events & EPOLLOUT_FLAG != 0 <==> interests.bits() & crate::os::interests::WRITABLE_BIT != 0,
        events & EPOLLET_FLAG != 0 <==> opt.bits() & crate::os::option::EDGE_BIT != 0,
        events & EPOLLONESHOT_FLAG != 0 <==> opt.bits() & crate::os::option::ONESHOT_BIT != 0,
        events & !(EPOLLIN_FLAG | EPOLLPRI_FLAG | EPOLLOUT_FLAG | EPOLLRDHUP_FLAG | EPOLLET_FLAG
            | EPOLLONESHOT_FLAG) == 0,
{
    proof {
        lemma_epoll_events_flags(interests, opt);
    }
    let mut events = epollpri() | epollrdhup();
    if interests.is_readable() {
        events = events | epollin();
    }
    if interests.is_writable() {
        events = events | epollout();
    }
    if opt.is_edge() {
        events = events | epollet();
    }
    if opt.is_oneshot() {
        events = events | epolloneshot();
    }
    events
}

/// The readiness event of an epoll event with the user data `data`, which
/// holds the id, and the flags `events`.
pub fn event_from_epoll(data: u64, events: u32) -> (event: Event)
    ensures
        event.id_spec() == Id(#[verifier::truncate] (data as usize)),
        event.readiness_spec().bits() == epoll_readiness(events),
        event.readiness_spec().bits() & READABLE_BIT != 0 <==> events & (EPOLLIN_FLAG | EPOLLPRI_FLAG) != 0,
        event.readiness_spec().bits() & WRITABLE_BIT != 0 <==> events & EPOLLOUT_FLAG != 0,
        event.readiness_spec().bits() & ERROR_BIT != 0 <==> events & EPOLLERR_FLAG != 0,
        event.readiness_spec().bits() & HUP_BIT != 0 <==> events & (EPOLLRDHUP_FLAG | EPOLLHUP_FLAG) != 0,
        event.readiness_spec().bits() & !(READABLE_BIT | WRITABLE_BIT | ERROR_BIT | HUP_BIT) == 0,
{
    proof {
        lemma_epoll_readiness_flags(events);
    }
    let id = Id(#[verifier::truncate] (data as usize));
    let mut readiness = Ready::empty();
    if contains_flag(events, epollin() | epollpri()) {
        readiness.insert(Ready::readable());
    }
    if contains_flag(events, epollout()) {
        readiness.insert(Ready::writable());
    }
    if contains_flag(events, epollerr()) {
        readiness.insert(Ready::error());
    }
    if contains_flag(events, epollrdhup() | epollhup()) {
        readiness.insert(Ready::hup());
    }
    proof {
        assert(0u8 | 1u8 == 1u8) by (bit_vector);
    }
    Event::new(id, readiness)
}

/// The number of events one wait of the selector asks for, given the
/// capacity left in the event sink: as many as fit, at most [`EVENTS_CAP`].
/// Zero means there is no room and the selector is not asked.
pub fn wait_capacity(capacity: Capacity) -> (n: usize)
    ensures
        n == capacity.min_spec(EVENTS_CAP as int),
{
    capacity.min(EVENTS_CAP)
}

/// The readiness events of the epoll events `raw`, given as pairs of user
/// data and flags, in the same order.
pub fn events_from_epoll(raw: &[(u64, u32)]) -> (events: Vec<Event>)
    ensures
        events@.len() == raw@.len(),
        forall|i: int|
            0 <= i < raw@.len() ==> {
                &&& (#[trigger] events@[i]).id_spec() == Id(#[verifier::truncate] (raw@[i].0 as usize))
                &&& events@[i].readiness_spec().bits() == epoll_readiness(raw@[i].1)
            },
{
    let mut events: Vec<Event> = Vec::new();
    let mut i: usize = 0;
    while i < raw.len()
        invariant
            i <= raw@.len(),
            events@.len() == i,
            forall|j: int|
                0 <= j < i ==> {
                    &&& (#[trigger] events@[j]).id_spec() == Id(#[verifier::truncate] (raw@[j].0 as usize))
                    &&& events@[j].readiness_spec().bits() == epoll_readiness(raw@[j].1)
                },
        decreases raw@.len() - i,
    {
        let (data, flags) = raw[i];
        events.push(event_from_epoll(data, flags));
        i = i + 1;
    }
    events
}

/// Convert a timeout into whole milliseconds, at most a day.
pub fn duration_to_millis(duration: Duration) -> (millis: i32)
    ensures
        millis == if duration.nanos() / crate::time::NANOS_PER_MILLI as nat <= MAX_TIMEOUT_MILLIS {
            duration.nanos() / crate::time::NANOS_PER_MILLI as nat
        } else {
            MAX_TIMEOUT_MILLIS as nat
        },
{
    let millis = duration.as_millis();
    if millis <= MAX_TIMEOUT_MILLIS as u128 {
        millis as i32
    } else {
        MAX_TIMEOUT_MILLIS as i32
    }
}

} // verus!
