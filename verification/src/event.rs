//! Readiness event types: events, their ids and readiness, and the traits
//! of event sources and event sinks.

use vstd::prelude::*;
use vstd::string::StringExecFns;

use crate::time::Duration;

verus! {

/// Bit of readable readiness.
pub const READABLE_BIT: u8 = 1;

/// Bit of writable readiness.
pub const WRITABLE_BIT: u8 = 2;

/// Bit of error readiness.
pub const ERROR_BIT: u8 = 4;

/// Bit of timer readiness.
pub const TIMER_BIT: u8 = 8;

/// Bit of hup readiness.
pub const HUP_BIT: u8 = 16;

/// Identifier of an event.
///
/// An `Id` associates a readiness event with an event handle. It does not have
/// to be unique and is opaque to the event sources.
#[derive(Copy, Clone, PartialEq, Eq, Structural, PartialOrd, Ord, Hash, Debug)]
pub struct Id(pub usize);

impl From<usize> for Id {
    fn from(val: usize) -> (id: Id) {
        Id(val)
    }
}

impl vstd::std_specs::convert::FromSpecImpl<usize> for Id {
    open spec fn obeys_from_spec() -> bool {
        true
    }

    open spec fn from_spec(v: usize) -> Id {
        Id(v)
    }
}

impl From<Id> for usize {
    fn from(val: Id) -> (n: usize) {
        val.0
    }
}

impl vstd::std_specs::convert::FromSpecImpl<Id> for usize {
    open spec fn obeys_from_spec() -> bool {
        true
    }

    open spec fn from_spec(v: Id) -> usize {
        v.0
    }
}

/// A set of readiness event kinds.
///
/// `Ready` is a set of operation descriptors indicating which kind of
/// operation is ready to be performed, held as bit flags. Sets are combined
/// with `|`.
#[derive(Copy, Clone, PartialEq, Eq, Structural, PartialOrd, Ord, Hash, Debug)]
pub struct Ready(u8);

/// The text of the set of flags `bits`: the names of the flags it holds,
/// separated by `" | "`, or `(empty)` when it holds none.
pub open spec fn ready_text(bits: u8) -> Seq<char> {
    if bits == 0 {
        "(empty)"@
    } else {
        let t0 = Seq::<char>::empty();
        let t1 = text_with_flag(t0, bits & READABLE_BIT != 0, "READABLE"@);
        let t2 = text_with_flag(t1, bits & WRITABLE_BIT != 0, "WRITABLE"@);
        let t3 = text_with_flag(t2, bits & ERROR_BIT != 0, "ERROR"@);
        let t4 = text_with_flag(t3, bits & TIMER_BIT != 0, "TIMER"@);
        text_with_flag(t4, bits & HUP_BIT != 0, "HUP"@)
    }
}

/// `text` followed by the flag `name` where `present`, separated by `" | "`
/// from the names before it.
pub open spec fn text_with_flag(text: Seq<char>, present: bool, name: Seq<char>) -> Seq<char> {
    if !present {
        text
    } else if text.len() == 0 {
        name
    } else {
        text + " | "@ + name
    }
}

/// For a single flag `f`, containing it and intersecting it are the same.
pub proof fn lemma_single_flag(x: u8, f: u8)
    requires
        f == 1 || f == 2 || f == 4 || f == 8 || f == 16 || f == 32 || f == 64 || f == 128,
    ensures
        (x & f == f) <==> (x & f != 0),
{
    assert(((x & 1u8 == 1u8) <==> (x & 1u8 != 0u8)) && ((x & 2u8 == 2u8) <==> (x & 2u8 != 0u8)) && ((x
        & 4u8 == 4u8) <==> (x & 4u8 != 0u8)) && ((x & 8u8 == 8u8) <==> (x & 8u8 != 0u8)) && ((x & 16u8
        == 16u8) <==> (x & 16u8 != 0u8)) && ((x & 32u8 == 32u8) <==> (x & 32u8 != 0u8)) && ((x & 64u8
        == 64u8) <==> (x & 64u8 != 0u8)) && ((x & 128u8 == 128u8) <==> (x & 128u8 != 0u8))) by (bit_vector);
}

/// Appends the flag `name` to `text` where `present`, as `text_with_flag`
/// says.
pub fn append_flag(text: &mut String, present: bool, name: &str)
    requires
        name@.len() > 0,
    ensures
        final(text)@ == text_with_flag(old(text)@, present, name@),
        final(text)@.len() >= old(text)@.len(),
{
    if present {
        if text.as_str().is_empty() {
            text.append(name);
        } else {
            text.append(" | ");
            text.append(name);
        }
    }
}

impl Ready {
    /// The raw bits of the set.
    pub closed spec fn bits(self) -> u8 {
        self.0
    }

    /// The set whose bits are `bits`.
    pub closed spec fn from_bits_spec(bits: u8) -> Ready {
        Ready(bits)
    }

    /// Sets are equal exactly when their bits are.
    pub proof fn lemma_bits_eq(a: Ready, b: Ready)
        ensures
            (a == b) <==> (a.bits() == b.bits()),
    {
    }

    /// The set of `from_bits_spec(bits)` has the bits `bits`.
    pub proof fn lemma_from_bits(bits: u8)
        ensures
            Self::from_bits_spec(bits).bits() == bits,
    {
    }

    /// The empty set.
    pub fn empty() -> (r: Ready)
        ensures
            r.bits() == 0,
            r == Ready::from_bits_spec(0),
    {
        Ready(0)
    }

    /// Readable readiness.
    pub fn readable() -> (r: Ready)
        ensures
            r.bits() == READABLE_BIT,
            r == Ready::from_bits_spec(READABLE_BIT),
    {
        Ready(READABLE_BIT)
    }

    /// Writable readiness.
    pub fn writable() -> (r: Ready)
        ensures
            r.bits() == WRITABLE_BIT,
            r == Ready::from_bits_spec(WRITABLE_BIT),
    {
        Ready(WRITABLE_BIT)
    }

    /// Error readiness.
    pub fn error() -> (r: Ready)
        ensures
            r.bits() == ERROR_BIT,
            r == Ready::from_bits_spec(ERROR_BIT),
    {
        Ready(ERROR_BIT)
    }

    /// A deadline has elapsed.
    pub fn timer() -> (r: Ready)
        ensures
            r.bits() == TIMER_BIT,
            r == Ready::from_bits_spec(TIMER_BIT),
    {
        Ready(TIMER_BIT)
    }

    /// Hup readiness, a Unix signal.
    pub fn hup() -> (r: Ready)
        ensures
            r.bits() == HUP_BIT,
            r == Ready::from_bits_spec(HUP_BIT),
    {
        Ready(HUP_BIT)
    }

    /// Whether or not all flags in `other` are contained within `self`.
    pub fn contains(self, other: Ready) -> (r: bool)
        ensures
            r == (self.bits() & other.bits() == other.bits()),
    {
        (self.0 & other.0) == other.0
    }

    /// Returns true if the value includes readable readiness.
    pub fn is_readable(self) -> (r: bool)
        ensures
            r == (self.bits() & READABLE_BIT != 0),
    {
        let r = self.contains(Ready::readable());
        proof {
            lemma_single_flag(self.0, 1);
        }
        r
    }

    /// Returns true if the value includes writable readiness.
    pub fn is_writable(self) -> (r: bool)
        ensures
            r == (self.bits() & WRITABLE_BIT != 0),
    {
        let r = self.contains(Ready::writable());
        proof {
            lemma_single_flag(self.0, 2);
        }
        r
    }

    /// Returns true if the value includes error readiness.
    pub fn is_error(self) -> (r: bool)
        ensures
            r == (self.bits() & ERROR_BIT != 0),
    {
        let r = self.contains(Ready::error());
        proof {
            lemma_single_flag(self.0, 4);
        }
        r
    }

    /// Returns true if a deadline has elapsed.
    pub fn is_timer(self) -> (r: bool)
        ensures
            r == (self.bits() & TIMER_BIT != 0),
    {
        let r = self.contains(Ready::timer());
        proof {
            lemma_single_flag(self.0, 8);
        }
        r
    }

    /// Returns true if the value includes hup readiness.
    pub fn is_hup(self) -> (r: bool)
        ensures
            r == (self.bits() & HUP_BIT != 0),
    {
        let r = self.contains(Ready::hup());
        proof {
            lemma_single_flag(self.0, 16);
        }
        r
    }

    /// Adds the flags of `other` to `self`, as `|=` does.
    pub fn insert(&mut self, other: Ready)
        ensures
            final(self).bits() == old(self).bits() | other.bits(),
    {
        self.0 = self.0 | other.0;
    }

    /// The names of the flags in the set, separated by `" | "`, or `(empty)`
    /// for the empty set.
    pub fn debug_text(self) -> (s: String)
        ensures
            s@ == ready_text(self.bits()),
    {
        if self.0 == 0 {
            return String::from_str("(empty)");
        }
        proof {
            reveal_strlit("READABLE");
            reveal_strlit("WRITABLE");
            reveal_strlit("ERROR");
            reveal_strlit("TIMER");
            reveal_strlit("HUP");
        }
        let mut text = String::new();
        append_flag(&mut text, self.0 & READABLE_BIT != 0, "READABLE");
        append_flag(&mut text, self.0 & WRITABLE_BIT != 0, "WRITABLE");
        append_flag(&mut text, self.0 & ERROR_BIT != 0, "ERROR");
        append_flag(&mut text, self.0 & TIMER_BIT != 0, "TIMER");
        append_flag(&mut text, self.0 & HUP_BIT != 0, "HUP");
        text
    }
}

impl Ready {
    /// The union of two sets contains both: every flag of `a` and of `b` is
    /// in `a | b`, and nothing else is.
    pub proof fn lemma_union_contains(a: Ready, b: Ready)
        ensures
            ({
                let u = Ready::from_bits_spec(a.bits() | b.bits());
                &&& u.bits() & a.bits() == a.bits()
                &&& u.bits() & b.bits() == b.bits()
                &&& forall|c: Ready| #[trigger] (c.bits() & u.bits()) == u.bits() ==> c.bits() & a.bits()
                    == a.bits() && c.bits() & b.bits() == b.bits()
            }),
    {
        let x = a.0;
        let y = b.0;
        assert(((x | y) & x) == x && ((x | y) & y) == y) by (bit_vector);
        assert forall|c: Ready| #[trigger] (c.bits() & Ready::from_bits_spec(a.bits() | b.bits()).bits())
            == Ready::from_bits_spec(a.bits() | b.bits()).bits() implies c.bits() & a.bits() == a.bits()
            && c.bits() & b.bits() == b.bits() by {
            let z = c.0;
            assert((z & (x | y)) == (x | y) ==> (z & x) == x && (z & y) == y) by (bit_vector);
        }
    }
}

impl core::ops::BitOr for Ready {
    type Output = Ready;

    fn bitor(self, rhs: Ready) -> (r: Ready) {
        Ready(self.0 | rhs.0)
    }
}

impl vstd::std_specs::ops::BitOrSpecImpl for Ready {
    open spec fn obeys_bitor_spec() -> bool {
        true
    }

    open spec fn bitor_req(self, rhs: Ready) -> bool {
        true
    }

    open spec fn bitor_spec(self, rhs: Ready) -> Ready {
        Ready::from_bits_spec(self.bits() | rhs.bits())
    }
}

impl core::ops::BitOrAssign for Ready {
    fn bitor_assign(&mut self, rhs: Ready)
        ensures
            final(self).bits() == old(self).bits() | rhs.bits(),
    {
        self.0 = self.0 | rhs.0;
    }
}

/// A readiness event: a readiness state paired with an id.
#[derive(Copy, Clone, PartialEq, Eq, Structural, Hash, Debug)]
pub struct Event {
    id: Id,
    readiness: Ready,
}

impl Event {
    /// The event with `id` and `readiness`.
    pub closed spec fn new_spec(id: Id, readiness: Ready) -> Event {
        Event { id, readiness }
    }

    /// The event's id.
    pub closed spec fn id_spec(self) -> Id {
        self.id
    }

    /// The event's readiness.
    pub closed spec fn readiness_spec(self) -> Ready {
        self.readiness
    }

    /// The id and readiness of the event `new_spec(id, readiness)`.
    pub proof fn lemma_new_spec(id: Id, readiness: Ready)
        ensures
            Event::new_spec(id, readiness).id_spec() == id,
            Event::new_spec(id, readiness).readiness_spec() == readiness,
    {
    }

    /// Events are equal exactly when their ids and readiness are.
    pub proof fn lemma_eq(a: Event, b: Event)
        ensures
            (a == b) <==> (a.id_spec() == b.id_spec() && a.readiness_spec() == b.readiness_spec()),
    {
    }

    /// Creates a new `Event` containing `id` and `readiness`.
    pub fn new(id: Id, readiness: Ready) -> (e: Event)
        ensures
            e.id_spec() == id,
            e.readiness_spec() == readiness,
            e == Event::new_spec(id, readiness),
    {
        Event { id, readiness }
    }

    /// Returns the event's id.
    pub fn id(&self) -> (id: Id)
        ensures
            id == self.id_spec(),
    {
        self.id
    }

    /// Returns the event's readiness.
    pub fn readiness(&self) -> (r: Ready)
        ensures
            r == self.readiness_spec(),
    {
        self.readiness
    }
}

/// The capacity left in an event sink.
#[derive(Copy, Clone, PartialEq, Eq, Structural, PartialOrd, Ord, Debug)]
pub enum Capacity {
    /// The capacity is limited to this many more events.
    Limited(usize),
    /// The sink can grow to take any number of events.
    Growable,
}

impl Capacity {
    /// The number of events, out of `n` available, that fit in this capacity.
    pub open spec fn min_spec(self, n: int) -> int {
        match self {
            Capacity::Limited(left) => if left <= n { left as int } else { n },
            Capacity::Growable => n,
        }
    }

    /// Whether `n` more events fit in this capacity.
    pub open spec fn fits(self, n: int) -> bool {
        match self {
            Capacity::Limited(left) => n <= left,
            Capacity::Growable => true,
        }
    }

    /// The capacity left after `n` more events were added.
    pub open spec fn after(self, n: int) -> Capacity {
        match self {
            Capacity::Limited(left) => Capacity::Limited((left - n) as usize),
            Capacity::Growable => Capacity::Growable,
        }
    }

    /// Get the maximum number of events given the event sink's capacity and
    /// the number of available events, `right`.
    pub fn min(self, right: usize) -> (n: usize)
        ensures
            n == self.min_spec(right as int),
    {
        match self {
            Capacity::Limited(left) => if left <= right {
                left
            } else {
                right
            },
            Capacity::Growable => right,
        }
    }
}

/// An event sink to which events can be added.
///
/// An event sink receives the readiness events that sources report when they
/// are polled. It may be a collection or, for example, a scheduler that marks
/// processes as runnable.
pub trait Sink {
    /// The events the sink has taken in so far, in the order they were added.
    spec fn received(&self) -> Seq<Event>;

    /// The capacity left in the sink.
    spec fn capacity_spec(&self) -> Capacity;

    /// Capacity left in the event sink: the available capacity left, not the
    /// total capacity.
    fn capacity_left(&self) -> (c: Capacity)
        ensures
            c == self.capacity_spec(),
    ;

    /// Add a single event.
    fn add(&mut self, event: Event)
        requires
            old(self).capacity_spec().fits(1),
        ensures
            final(self).received() == old(self).received().push(event),
            final(self).capacity_spec() == old(self).capacity_spec().after(1),
    ;

    /// Extend with multiple events, in order.
    fn extend(&mut self, events: Vec<Event>)
        requires
            old(self).capacity_spec().fits(events@.len() as int),
        ensures
            final(self).received() == old(self).received() + events@,
            final(self).capacity_spec() == old(self).capacity_spec().after(events@.len() as int),
    ;
}

impl Sink for Vec<Event> {
    open spec fn received(&self) -> Seq<Event> {
        self@
    }

    open spec fn capacity_spec(&self) -> Capacity {
        Capacity::Growable
    }

    fn capacity_left(&self) -> (c: Capacity) {
        Capacity::Growable
    }

    fn add(&mut self, event: Event) {
        self.push(event);
    }

    fn extend(&mut self, events: Vec<Event>) {
        let mut events = events;
        self.append(&mut events);
    }
}

/// The poll result `r` is a success.
pub open spec fn poll_succeeded<E>(r: Result<(), E>) -> bool {
    r is Ok
}

/// The sink `after` holds the events of `before` followed by new ones, and no
/// more new ones than `before` had capacity left for.
pub open spec fn sink_extended<ES: Sink>(before: ES, after: ES) -> bool {
    let added = after.received().len() - before.received().len();
    &&& before.received().is_prefix_of(after.received())
    &&& before.capacity_spec().fits(added)
    &&& after.capacity_spec() == before.capacity_spec().after(added)
}

/// Extending a sink twice extends it once, with the events of both.
pub proof fn lemma_sink_extended_trans<ES: Sink>(a: ES, b: ES, c: ES)
    requires
        sink_extended(a, b),
        sink_extended(b, c),
    ensures
        sink_extended(a, c),
{
    assert(a.received().is_prefix_of(c.received())) by {
        assert forall|i: int| 0 <= i < a.received().len() implies a.received()[i] == c.received()[i] by {
            assert(a.received()[i] == b.received()[i]);
        }
    }
}

/// A sink is extended by nothing where it did not change.
pub proof fn lemma_sink_extended_refl<ES: Sink>(a: ES)
    ensures
        sink_extended(a, a),
{
    assert(a.received().is_prefix_of(a.received()));
    match a.capacity_spec() {
        Capacity::Limited(left) => {
            assert(a.capacity_spec().after(0) == a.capacity_spec());
        },
        Capacity::Growable => {},
    }
}

/// A readiness event source that can be polled for events.
///
/// `ES` is the event sink the events are added to, `E` the error a poll may
/// return.
pub trait Source<ES: Sink, E> {
    /// The longest a blocking poll may block before an event of this source
    /// becomes available, `None` where that is unknown.
    fn max_timeout(&self) -> Option<Duration>;

    /// Poll for readiness events, without blocking.
    ///
    /// The events are added to `event_sink`, never more than it has capacity
    /// left; events that do not fit stay in the source.
    fn poll(&mut self, event_sink: &mut ES) -> (r: Result<(), E>)
        ensures
            sink_extended(*old(event_sink), *final(event_sink)),
    ;

    /// A poll for readiness events that may block up to `timeout`, or without
    /// limit where `timeout` is `None`.
    ///
    /// By default it polls without blocking.
    fn blocking_poll(&mut self, event_sink: &mut ES, timeout: Option<Duration>) -> (r: Result<(), E>)
        ensures
            sink_extended(*old(event_sink), *final(event_sink)),
    {
        self.poll(event_sink)
    }
}

} // verus!
