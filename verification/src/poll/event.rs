//! Readiness event types of the [`Poller`](crate::poll::Poller): event ids,
//! readiness, events, the container events are polled into, and the trait
//! of handles that register with a poller.

use vstd::prelude::*;
use vstd::string::StringExecFns;

use crate::event::{append_flag, text_with_flag};
use crate::event::{ERROR_BIT, HUP_BIT, READABLE_BIT, TIMER_BIT, WRITABLE_BIT};
use crate::poll::{Poller, PollOption, RegisterError};

verus! {

/// The id that no handle is registered with.
pub const INVALID_ID: usize = usize::MAX;

/// Identifier of an event.
///
/// An `EventedId` associates readiness notifications with an event handle. It
/// does not have to be unique; it is opaque to the poller. The largest value
/// is reserved: it marks handles that are not registered.
#[derive(Copy, Clone, PartialEq, Eq, Structural, PartialOrd, Ord, Hash, Debug)]
pub struct EventedId(pub usize);

impl EventedId {
    /// The id that marks a handle as not registered.
    pub fn invalid() -> (id: EventedId)
        ensures
            id.0 == INVALID_ID,
    {
        EventedId(INVALID_ID)
    }

    /// Whether the id may be registered: every id but the reserved one.
    pub fn is_valid(self) -> (r: bool)
        ensures
            r == (self.0 != INVALID_ID),
    {
        self.0 != INVALID_ID
    }
}

impl From<usize> for EventedId {
    fn from(val: usize) -> (id: EventedId) {
        EventedId(val)
    }
}

impl vstd::std_specs::convert::FromSpecImpl<usize> for EventedId {
    open spec fn obeys_from_spec() -> bool {
        true
    }

    open spec fn from_spec(v: usize) -> EventedId {
        EventedId(v)
    }
}

impl From<EventedId> for usize {
    fn from(val: EventedId) -> (n: usize) {
        val.0
    }
}

impl vstd::std_specs::convert::FromSpecImpl<EventedId> for usize {
    open spec fn obeys_from_spec() -> bool {
        true
    }

    open spec fn from_spec(v: EventedId) -> usize {
        v.0
    }
}

/// The text of the readiness `bits`: the names of its flags separated by
/// `" | "`, or `(empty)` where it holds none of them.
pub open spec fn flags_text(bits: u8) -> Seq<char> {
    let t0 = Seq::<char>::empty();
    let t1 = text_with_flag(t0, bits & READABLE_BIT != 0, "READABLE"@);
    let t2 = text_with_flag(t1, bits & WRITABLE_BIT != 0, "WRITABLE"@);
    let t3 = text_with_flag(t2, bits & ERROR_BIT != 0, "ERROR"@);
    let t4 = text_with_flag(t3, bits & TIMER_BIT != 0, "TIMER"@);
    let t5 = text_with_flag(t4, bits & HUP_BIT != 0, "HUP"@);
    if t5.len() == 0 {
        "(empty)"@
    } else {
        t5
    }
}

/// A set of readiness event kinds, as bit flags.
///
/// `contains` of this set asks whether two sets share a flag.
#[derive(Copy, Clone, PartialEq, Eq, Structural, PartialOrd, Ord, Hash, Debug)]
pub struct Ready(u8);

impl Ready {
    /// The raw bits of the set.
    pub closed spec fn bits(self) -> u8 {
        self.0
    }

    /// The set with the bits `bits`.
    pub closed spec fn from_bits_spec(bits: u8) -> Ready {
        Ready(bits)
    }

    /// The bits of `from_bits_spec(bits)` are `bits`.
    pub proof fn lemma_from_bits(bits: u8)
        ensures
            Self::from_bits_spec(bits).bits() == bits,
    {
    }

    /// Sets are equal exactly when their bits are.
    pub proof fn lemma_bits_eq(a: Ready, b: Ready)
        ensures
            (a == b) <==> (a.bits() == b.bits()),
    {
    }

    /// Empty set of readiness.
    pub fn empty() -> (r: Ready)
        ensures
            r == Ready::from_bits_spec(0),
            r.bits() == 0,
    {
        Ready(0)
    }

    /// All readiness flags.
    pub fn all() -> (r: Ready)
        ensures
            r == Ready::from_bits_spec(31),
            r.bits() == 31,
    {
        Ready(31)
    }

    /// Readable readiness.
    pub fn readable() -> (r: Ready)
        ensures
            r == Ready::from_bits_spec(READABLE_BIT),
            r.bits() == READABLE_BIT,
    {
        Ready(READABLE_BIT)
    }

    /// Writable readiness.
    pub fn writable() -> (r: Ready)
        ensures
            r == Ready::from_bits_spec(WRITABLE_BIT),
            r.bits() == WRITABLE_BIT,
    {
        Ready(WRITABLE_BIT)
    }

    /// Error readiness.
    pub fn error() -> (r: Ready)
        ensures
            r == Ready::from_bits_spec(ERROR_BIT),
            r.bits() == ERROR_BIT,
    {
        Ready(ERROR_BIT)
    }

    /// A deadline has elapsed.
    pub fn timer() -> (r: Ready)
        ensures
            r == Ready::from_bits_spec(TIMER_BIT),
            r.bits() == TIMER_BIT,
    {
        Ready(TIMER_BIT)
    }

    /// Hup readiness, a Unix signal.
    pub fn hup() -> (r: Ready)
        ensures
            r == Ready::from_bits_spec(HUP_BIT),
            r.bits() == HUP_BIT,
    {
        Ready(HUP_BIT)
    }

    /// Insert another readiness, the same operation as `|=`.
    pub fn insert(&mut self, other: Ready)
        ensures
            final(self).bits() == old(self).bits() | other.bits(),
    {
        self.0 = self.0 | other.0;
    }

    /// Whether the set is empty.
    pub fn is_empty(self) -> (r: bool)
        ensures
            r == (self.bits() == 0),
    {
        self.0 == 0
    }

    /// Whether every flag of `other` is set in `self`.
    pub fn contains(self, other: Ready) -> (r: bool)
        ensures
            r == (self.bits() & other.bits() == other.bits()),
    {
        self.0 & other.0 == other.0
    }

    /// Whether `self` and `other` share a flag.
    pub fn intersects(self, other: Ready) -> (r: bool)
        ensures
            r == (self.bits() & other.bits() != 0),
    {
        self.0 & other.0 != 0
    }

    /// The flags of both `self` and `other`.
    pub fn intersection(self, other: Ready) -> (r: Ready)
        ensures
            r.bits() == self.bits() & other.bits(),
            r == Ready::from_bits_spec(self.bits() & other.bits()),
    {
        Ready(self.0 & other.0)
    }

    /// Returns true if the value includes readable readiness.
    pub fn is_readable(self) -> (r: bool)
        ensures
            r == (self.bits() & READABLE_BIT != 0),
    {
        self.intersects(Ready::readable())
    }

    /// Returns true if the value includes writable readiness.
    pub fn is_writable(self) -> (r: bool)
        ensures
            r == (self.bits() & WRITABLE_BIT != 0),
    {
        self.intersects(Ready::writable())
    }

    /// Returns true if the value includes error readiness.
    pub fn is_error(self) -> (r: bool)
        ensures
            r == (self.bits() & ERROR_BIT != 0),
    {
        self.intersects(Ready::error())
    }

    /// Returns true if a deadline has elapsed.
    pub fn is_timer(self) -> (r: bool)
        ensures
            r == (self.bits() & TIMER_BIT != 0),
    {
        self.intersects(Ready::timer())
    }

    /// Returns true if the value includes hup readiness.
    pub fn is_hup(self) -> (r: bool)
        ensures
            r == (self.bits() & HUP_BIT != 0),
    {
        self.intersects(Ready::hup())
    }

    /// The names of the flags in the set, separated by `" | "`, or `(empty)`
    /// where it holds none of them.
    pub fn debug_text(self) -> (s: String)
        ensures
            s@ == flags_text(self.bits()),
    {
        proof {
            reveal_strlit("READABLE");
            reveal_strlit("WRITABLE");
            reveal_strlit("ERROR");
            reveal_strlit("TIMER");
            reveal_strlit("HUP");
        }
        let mut text = String::new();
        append_flag(&mut text, self.0 & READABLE_BIT != 0, "READABLE");
        append_flag(&mut text, self.0 & WRITABLE_BIT != 0, "WRITABLE");
        append_flag(&mut text, self.0 & ERROR_BIT != 0, "ERROR");
        append_flag(&mut text, self.0 & TIMER_BIT != 0, "TIMER");
        append_flag(&mut text, self.0 & HUP_BIT != 0, "HUP");
        if text.as_str().is_empty() {
            String::from_str("(empty)")
        } else {
            text
        }
    }
}

impl core::ops::BitOr for Ready {
    type Output = Ready;

    fn bitor(self, rhs: Ready) -> (r: Ready) {
        Ready(self.0 | rhs.0)
    }
}

impl vstd::std_specs::ops::BitOrSpecImpl for Ready {
    open spec fn obeys_bitor_spec() -> bool {
        true
    }

    open spec fn bitor_req(self, rhs: Ready) -> bool {
        true
    }

    open spec fn bitor_spec(self, rhs: Ready) -> Ready {
        Ready::from_bits_spec(self.bits() | rhs.bits())
    }
}

impl core::ops::BitOrAssign for Ready {
    fn bitor_assign(&mut self, rhs: Ready)
        ensures
            final(self).bits() == old(self).bits() | rhs.bits(),
    {
        self.0 = self.0 | rhs.0;
    }
}

/// A readiness event: readiness paired with an [`EventedId`].
#[derive(Copy, Clone, PartialEq, Eq, Structural, Hash, Debug)]
pub struct Event {
    id: EventedId,
    readiness: Ready,
}

impl Event {
    /// The event with `id` and `readiness`.
    pub closed spec fn new_spec(id: EventedId, readiness: Ready) -> Event {
        Event { id, readiness }
    }

    /// The event's id.
    pub closed spec fn id_spec(self) -> EventedId {
        self.id
    }

    /// The event's readiness.
    pub closed spec fn readiness_spec(self) -> Ready {
        self.readiness
    }

    /// The id and readiness of `new_spec(id, readiness)`.
    pub proof fn lemma_new_spec(id: EventedId, readiness: Ready)
        ensures
            Event::new_spec(id, readiness).id_spec() == id,
            Event::new_spec(id, readiness).readiness_spec() == readiness,
    {
    }

    /// Events are equal exactly when their ids and readiness are.
    pub proof fn lemma_eq(a: Event, b: Event)
        ensures
            (a == b) <==> (a.id_spec() == b.id_spec() && a.readiness_spec() == b.readiness_spec()),
    {
    }

    /// Creates a new `Event` containing `id` and `readiness`.
    pub fn new(id: EventedId, readiness: Ready) -> (e: Event)
        ensures
            e == Event::new_spec(id, readiness),
            e.id_spec() == id,
            e.readiness_spec() == readiness,
    {
        Event { id, readiness }
    }

    /// Returns the event's id.
    pub fn id(&self) -> (id: EventedId)
        ensures
            id == self.id_spec(),
    {
        self.id
    }

    /// Returns the event's readiness.
    pub fn readiness(&self) -> (r: Ready)
        ensures
            r == self.readiness_spec(),
    {
        self.readiness
    }
}

/// The capacity of [`Events::new`].
pub const DEFAULT_EVENTS_CAPACITY: usize = 128;

/// A container of events with a fixed capacity, which polls fill and which
/// hands its events out again one at a time.
#[derive(Debug)]
pub struct Events {
    events: Vec<Event>,
    capacity: usize,
    position: usize,
}

impl Events {
    /// The events held, in the order they were added.
    pub closed spec fn held(&self) -> Seq<Event> {
        self.events@
    }

    /// The most events the container holds.
    pub closed spec fn capacity_spec(&self) -> nat {
        self.capacity as nat
    }

    /// The number of events already handed out by `next`.
    pub closed spec fn handed_out(&self) -> nat {
        self.position as nat
    }

    /// The container holds no more than its capacity, and hands out only
    /// what it holds.
    #[verifier::type_invariant]
    closed spec fn wf(self) -> bool {
        &&& self.events@.len() <= self.capacity
        &&& self.position <= self.events@.len()
    }

    /// An empty container for up to `capacity` events.
    pub fn with_capacity(capacity: usize) -> (e: Events)
        ensures
            e.held() == Seq::<Event>::empty(),
            e.capacity_spec() == capacity,
            e.handed_out() == 0,
    {
        Events { events: Vec::new(), capacity, position: 0 }
    }

    /// An empty container for up to [`DEFAULT_EVENTS_CAPACITY`] events.
    pub fn new() -> (e: Events)
        ensures
            e.held() == Seq::<Event>::empty(),
            e.capacity_spec() == DEFAULT_EVENTS_CAPACITY,
            e.handed_out() == 0,
    {
        Events::with_capacity(DEFAULT_EVENTS_CAPACITY)
    }

    /// The number of events held.
    pub fn len(&self) -> (n: usize)
        ensures
            n == self.held().len(),
    {
        self.events.len()
    }

    /// Whether no event is held.
    pub fn is_empty(&self) -> (r: bool)
        ensures
            r == (self.held().len() == 0),
    {
        self.events.len() == 0
    }

    /// The most events the container holds.
    pub fn capacity(&self) -> (n: usize)
        ensures
            n == self.capacity_spec(),
    {
        self.capacity
    }

    /// The number of events that still fit.
    pub fn capacity_left(&self) -> (n: usize)
        ensures
            n == self.capacity_spec() - self.held().len(),
    {
        proof {
            use_type_invariant(self);
        }
        self.capacity - self.events.len()
    }

    /// Removes all events.
    pub fn clear(&mut self)
        ensures
            final(self).held() == Seq::<Event>::empty(),
            final(self).capacity_spec() == old(self).capacity_spec(),
            final(self).handed_out() == 0,
    {
        *self = Events { events: Vec::new(), capacity: self.capacity, position: 0 };
    }

    /// Adds an event, where one still fits.
    pub fn push(&mut self, event: Event)
        requires
            old(self).held().len() < old(self).capacity_spec(),
        ensures
            final(self).held() == old(self).held().push(event),
            final(self).capacity_spec() == old(self).capacity_spec(),
            final(self).handed_out() == old(self).handed_out(),
    {
        proof {
            use_type_invariant(&*self);
        }
        let mut taken = Events::with_capacity(0);
        core::mem::swap(self, &mut taken);
        let Events { mut events, capacity, position } = taken;
        events.push(event);
        *self = Events { events, capacity, position };
    }

    /// Adds the events of `events` from the front, as many as fit, and
    /// returns how many it added.
    pub fn extend_events(&mut self, events: &[Event]) -> (n: usize)
        ensures
            n == if events@.len() <= old(self).capacity_spec() - old(self).held().len() {
                events@.len() as int
            } else {
                old(self).capacity_spec() - old(self).held().len()
            },
            final(self).held() == old(self).held() + events@.take(n as int),
            final(self).capacity_spec() == old(self).capacity_spec(),
            final(self).handed_out() == old(self).handed_out(),
    {
        proof {
            use_type_invariant(&*self);
        }
        let left = self.capacity - self.events.len();
        let n = if events.len() <= left {
            events.len()
        } else {
            left
        };
        let mut i: usize = 0;
        while i < n
            invariant
                n <= events@.len(),
                i <= n,
                self.capacity_spec() == old(self).capacity_spec(),
                self.handed_out() == old(self).handed_out(),
                self.held() == old(self).held() + events@.take(i as int),
                old(self).held().len() + n <= old(self).capacity_spec(),
            decreases n - i,
        {
            proof {
                assert(events@.take(i + 1) == events@.take(i as int).push(events@[i as int]));
            }
            self.push(events[i]);
            i = i + 1;
        }
        n
    }

    /// The event at `index`, where there is one.
    pub fn get(&self, index: usize) -> (e: Option<Event>)
        ensures
            index < self.held().len() ==> e == Some(self.held()[index as int]),
            index >= self.held().len() ==> e is None,
    {
        if index < self.events.len() {
            Some(self.events[index])
        } else {
            None
        }
    }

    /// The next event not yet handed out, where there is one.
    pub fn next(&mut self) -> (e: Option<Event>)
        ensures
            final(self).held() == old(self).held(),
            final(self).capacity_spec() == old(self).capacity_spec(),
            old(self).handed_out() < old(self).held().len() ==> e == Some(
                old(self).held()[old(self).handed_out() as int],
            ) && final(self).handed_out() == old(self).handed_out() + 1,
            old(self).handed_out() >= old(self).held().len() ==> e is None && final(self).handed_out()
                == old(self).handed_out(),
    {
        proof {
            use_type_invariant(&*self);
        }
        if self.position < self.events.len() {
            let event = self.events[self.position];
            self.position = self.position + 1;
            Some(event)
        } else {
            None
        }
    }
}

/// A handle that may be registered with a [`Poller`].
///
/// The methods should not be called directly; the equivalent methods of
/// `Poller` call them. Each implementation says, through the spec functions,
/// what its calls do to the handle and to the poller.
pub trait Evented: Sized {
    /// Registering `before`, in the poller `poller_before`, under `id` with
    /// `interests` and `opt` gave `after`, `poller_after` and `r`.
    spec fn registered(
        before: Self,
        after: Self,
        poller_before: Poller,
        poller_after: Poller,
        id: EventedId,
        interests: Ready,
        opt: PollOption,
        r: Result<(), RegisterError>,
    ) -> bool;

    /// Reregistering `before`, in the poller `poller_before`, under `id` with
    /// `interests` and `opt` gave `after`, `poller_after` and `r`.
    spec fn reregistered(
        before: Self,
        after: Self,
        poller_before: Poller,
        poller_after: Poller,
        id: EventedId,
        interests: Ready,
        opt: PollOption,
        r: Result<(), RegisterError>,
    ) -> bool;

    /// Deregistering `before` from the poller `poller_before` gave `after`,
    /// `poller_after` and `r`.
    spec fn deregistered(
        before: Self,
        after: Self,
        poller_before: Poller,
        poller_after: Poller,
        r: Result<(), RegisterError>,
    ) -> bool;

    /// Register `self` with `poller`.
    fn register(&mut self, poller: &mut Poller, id: EventedId, interests: Ready, opt: PollOption) -> (r: Result<(), RegisterError>)
        ensures
            Self::registered(*old(self), *final(self), *old(poller), *final(poller), id, interests, opt, r),
    ;

    /// Reregister `self` with `poller`.
    fn reregister(&mut self, poller: &mut Poller, id: EventedId, interests: Ready, opt: PollOption) -> (r: Result<(), RegisterError>)
        ensures
            Self::reregistered(*old(self), *final(self), *old(poller), *final(poller), id, interests, opt, r),
    ;

    /// Deregister `self` from `poller`.
    fn deregister(&mut self, poller: &mut Poller) -> (r: Result<(), RegisterError>)
        ensures
            Self::deregistered(*old(self), *final(self), *old(poller), *final(poller), r),
    ;
}

} // verus!
