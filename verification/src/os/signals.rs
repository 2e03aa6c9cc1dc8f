//! Process signals and sets of them.

use vstd::prelude::*;
use vstd::std_specs::ops::BitOrSpec;

verus! {

/// Bit of the interrupt signal in a set.
pub const INTERRUPT_BIT: u8 = 1;

/// Bit of the quit signal in a set.
pub const QUIT_BIT: u8 = 2;

/// Bit of the terminate signal in a set.
pub const TERMINATE_BIT: u8 = 4;

/// Signal used in registering signal notifications.
#[derive(Copy, Clone, PartialEq, Eq, Structural, PartialOrd, Ord, Hash, Debug)]
pub enum Signal {
    /// Interrupt signal, `SIGINT`: sent when the controlling terminal wishes
    /// to interrupt the process, e.g. on Ctrl+C.
    Interrupt,
    /// Termination request signal, `SIGTERM`: the process is asked to
    /// terminate, e.g. by the `kill` command.
    Terminate,
    /// Terminal quit signal, `SIGQUIT`: the process is asked to quit and
    /// perform a core dump.
    Quit,
}

/// The bit of `signal` in a signal set.
pub open spec fn signal_bit(signal: Signal) -> u8 {
    match signal {
        Signal::Interrupt => INTERRUPT_BIT,
        Signal::Quit => QUIT_BIT,
        Signal::Terminate => TERMINATE_BIT,
    }
}

/// The number of signals whose bits are set in `bits`.
pub open spec fn signal_count(bits: u8) -> nat {
    (if bits & INTERRUPT_BIT != 0 { 1nat } else { 0nat }) + (if bits & QUIT_BIT != 0 {
        1nat
    } else {
        0nat
    }) + (if bits & TERMINATE_BIT != 0 { 1nat } else { 0nat })
}

/// Removing the bit of a signal in the set removes one signal.
pub proof fn lemma_remove_signal(bits: u8, bit: u8)
    requires
        bit == INTERRUPT_BIT || bit == QUIT_BIT || bit == TERMINATE_BIT,
        bits & bit != 0,
    ensures
        signal_count(bits & !bit) + 1 == signal_count(bits),
{
    let i1 = bits & 1u8 != 0;
    let q1 = bits & 2u8 != 0;
    let t1 = bits & 4u8 != 0;
    let r = bits & !bit;
    assert(bit == 1u8 ==> ((r & 1u8 != 0) == false && (r & 2u8 != 0) == q1 && (r & 4u8 != 0) == t1)) by (bit_vector)
        requires
            r == bits & !bit,
            q1 == (bits & 2u8 != 0),
            t1 == (bits & 4u8 != 0),
    ;
    assert(bit == 2u8 ==> ((r & 1u8 != 0) == i1 && (r & 2u8 != 0) == false && (r & 4u8 != 0) == t1)) by (bit_vector)
        requires
            r == bits & !bit,
            i1 == (bits & 1u8 != 0),
            t1 == (bits & 4u8 != 0),
    ;
    assert(bit == 4u8 ==> ((r & 1u8 != 0) == i1 && (r & 2u8 != 0) == q1 && (r & 4u8 != 0) == false)) by (bit_vector)
        requires
            r == bits & !bit,
            i1 == (bits & 1u8 != 0),
            q1 == (bits & 2u8 != 0),
    ;
}

/// A signal is in a set exactly when its bit is, and adding a signal to a set
/// keeps the signals in it and adds that one.
pub proof fn lemma_union_with_signal(set: SignalSet, signal: Signal, other: Signal)
    ensures
        SignalSet::from_bits_spec(set.bits() | signal_bit(signal)).has(signal),
        set.has(other) ==> SignalSet::from_bits_spec(set.bits() | signal_bit(signal)).has(other),
        signal != other ==> (SignalSet::from_bits_spec(set.bits() | signal_bit(signal)).has(other) <==> set.has(other)),
{
    let b = set.bits();
    assert(((b | 1u8) & 1u8) != 0u8 && ((b | 2u8) & 2u8) != 0u8 && ((b | 4u8) & 4u8) != 0u8) by (bit_vector);
    assert((((b | 1u8) & 2u8) != 0u8) == ((b & 2u8) != 0u8) && (((b | 1u8) & 4u8) != 0u8) == ((b & 4u8) != 0u8)
        && (((b | 2u8) & 1u8) != 0u8) == ((b & 1u8) != 0u8) && (((b | 2u8) & 4u8) != 0u8) == ((b & 4u8) != 0u8)
        && (((b | 4u8) & 1u8) != 0u8) == ((b & 1u8) != 0u8) && (((b | 4u8) & 2u8) != 0u8) == ((b & 2u8) != 0u8))
        by (bit_vector);
}

/// A signal or a set of signals: what `SignalSet::contains` checks for.
pub trait ToSignalSet: Sized {
    /// The signals of `self`, as a set.
    spec fn signals_spec(self) -> SignalSet;

    /// The signals of `self`, as a set.
    fn to_signal_set(self) -> (s: SignalSet)
        ensures
            s == self.signals_spec(),
    ;
}

/// Set of signals used in registering signal notifications.
#[derive(Copy, Clone, PartialEq, Eq, Structural, PartialOrd, Ord, Hash, Debug)]
pub struct SignalSet(u8);

impl SignalSet {
    /// The raw bits of the set.
    pub closed spec fn bits(self) -> u8 {
        self.0
    }

    /// The set with the bits `bits`.
    pub closed spec fn from_bits_spec(bits: u8) -> SignalSet {
        SignalSet(bits)
    }

    /// The bits of `from_bits_spec(bits)` are `bits`.
    pub proof fn lemma_from_bits(bits: u8)
        ensures
            Self::from_bits_spec(bits).bits() == bits,
    {
    }

    /// A set holds no bits but those of the three signals.
    #[verifier::type_invariant]
    closed spec fn wf(self) -> bool {
        self.0 < 8
    }

    /// Whether `signal` is in the set.
    pub open spec fn has(self, signal: Signal) -> bool {
        self.bits() & signal_bit(signal) != 0
    }

    /// Create an empty signal set.
    pub fn empty() -> (s: SignalSet)
        ensures
            s.bits() == 0,
    {
        SignalSet(0)
    }

    /// Create a new set with all signals.
    pub fn all() -> (s: SignalSet)
        ensures
            s.bits() == INTERRUPT_BIT | QUIT_BIT | TERMINATE_BIT,
    {
        assert(1u8 | 2u8 | 4u8 == 7u8) by (bit_vector);
        SignalSet(7)
    }

    /// Number of signals in the set.
    pub fn size(self) -> (n: usize)
        ensures
            n == signal_count(self.bits()),
    {
        let mut n: usize = 0;
        if self.0 & INTERRUPT_BIT != 0 {
            n = n + 1;
        }
        if self.0 & QUIT_BIT != 0 {
            n = n + 1;
        }
        if self.0 & TERMINATE_BIT != 0 {
            n = n + 1;
        }
        n
    }

    /// Whether or not all signals in `other` are contained within `self`.
    pub fn contains<S: ToSignalSet>(self, other: S) -> (r: bool)
        ensures
            r == (self.bits() & other.signals_spec().bits() == other.signals_spec().bits()),
    {
        let other: SignalSet = other.to_signal_set();
        (self.0 & other.0) == other.0
    }

    /// Iterate over the signals in the set.
    pub fn into_iter(self) -> (it: SignalSetIter)
        ensures
            it.remaining() == self,
    {
        SignalSetIter(self)
    }
}

impl From<Signal> for SignalSet {
    fn from(signal: Signal) -> (s: SignalSet) {
        SignalSet(
            match signal {
                Signal::Interrupt => INTERRUPT_BIT,
                Signal::Quit => QUIT_BIT,
                Signal::Terminate => TERMINATE_BIT,
            },
        )
    }
}

impl vstd::std_specs::convert::FromSpecImpl<Signal> for SignalSet {
    open spec fn obeys_from_spec() -> bool {
        true
    }

    open spec fn from_spec(signal: Signal) -> SignalSet {
        SignalSet::from_bits_spec(signal_bit(signal))
    }
}

impl core::ops::BitOr for SignalSet {
    type Output = SignalSet;

    fn bitor(self, rhs: SignalSet) -> (r: SignalSet) {
        proof {
            use_type_invariant(self);
            use_type_invariant(rhs);
            let a = self.0;
            let b = rhs.0;
            assert(a < 8 && b < 8 ==> (a | b) < 8) by (bit_vector);
        }
        SignalSet(self.0 | rhs.0)
    }
}

impl vstd::std_specs::ops::BitOrSpecImpl for SignalSet {
    open spec fn obeys_bitor_spec() -> bool {
        true
    }

    open spec fn bitor_req(self, rhs: SignalSet) -> bool {
        true
    }

    open spec fn bitor_spec(self, rhs: SignalSet) -> SignalSet {
        SignalSet::from_bits_spec(self.bits() | rhs.bits())
    }
}

impl core::ops::BitOr<Signal> for SignalSet {
    type Output = SignalSet;

    fn bitor(self, rhs: Signal) -> (r: SignalSet)
        ensures
            r.has(rhs),
            forall|other: Signal| #[trigger] r.has(other) <==> (self.has(other) || other == rhs),
    {
        let r = self | SignalSet::from(rhs);
        proof {
            SignalSet::lemma_from_bits(self.bits() | signal_bit(rhs));
            assert forall|other: Signal| #[trigger] r.has(other) <==> (self.has(other) || other == rhs) by {
                lemma_union_with_signal(self, rhs, other);
            }
            lemma_union_with_signal(self, rhs, rhs);
        }
        r
    }
}

impl vstd::std_specs::ops::BitOrSpecImpl<Signal> for SignalSet {
    open spec fn obeys_bitor_spec() -> bool {
        true
    }

    open spec fn bitor_req(self, rhs: Signal) -> bool {
        true
    }

    open spec fn bitor_spec(self, rhs: Signal) -> SignalSet {
        SignalSet::from_bits_spec(self.bits() | signal_bit(rhs))
    }
}

impl core::ops::BitOr for Signal {
    type Output = SignalSet;

    fn bitor(self, rhs: Signal) -> (r: SignalSet) {
        SignalSet::from(self) | SignalSet::from(rhs)
    }
}

impl vstd::std_specs::ops::BitOrSpecImpl for Signal {
    open spec fn obeys_bitor_spec() -> bool {
        true
    }

    open spec fn bitor_req(self, rhs: Signal) -> bool {
        true
    }

    open spec fn bitor_spec(self, rhs: Signal) -> SignalSet {
        SignalSet::from_bits_spec(signal_bit(self) | signal_bit(rhs))
    }
}

impl core::ops::BitOr<SignalSet> for Signal {
    type Output = SignalSet;

    fn bitor(self, rhs: SignalSet) -> (r: SignalSet) {
        rhs | SignalSet::from(self)
    }
}

impl vstd::std_specs::ops::BitOrSpecImpl<SignalSet> for Signal {
    open spec fn obeys_bitor_spec() -> bool {
        true
    }

    open spec fn bitor_req(self, rhs: SignalSet) -> bool {
        true
    }

    open spec fn bitor_spec(self, rhs: SignalSet) -> SignalSet {
        SignalSet::from_bits_spec(rhs.bits() | signal_bit(self))
    }
}

impl ToSignalSet for SignalSet {
    open spec fn signals_spec(self) -> SignalSet {
        self
    }

    fn to_signal_set(self) -> (s: SignalSet) {
        self
    }
}

impl ToSignalSet for Signal {
    open spec fn signals_spec(self) -> SignalSet {
        SignalSet::from_bits_spec(signal_bit(self))
    }

    fn to_signal_set(self) -> (s: SignalSet) {
        SignalSet::from(self)
    }
}

/// Adding a signal to a set with `|` gives a set that holds that signal and,
/// of the other signals, exactly those of the set.
pub proof fn lemma_set_or_signal(set: SignalSet, signal: Signal, other: Signal)
    ensures
        <SignalSet as BitOrSpec<Signal>>::bitor_spec(set, signal).has(signal),
        <SignalSet as BitOrSpec<Signal>>::bitor_spec(set, signal).has(other) <==> (set.has(other) || other == signal),
{
    lemma_union_with_signal(set, signal, other);
    SignalSet::lemma_from_bits(set.bits() | signal_bit(signal));
}

/// The union of two sets with `|` holds exactly the signals of either.
pub proof fn lemma_set_or_set(a: SignalSet, b: SignalSet, signal: Signal)
    ensures
        <SignalSet as BitOrSpec<SignalSet>>::bitor_spec(a, b).has(signal) <==> (a.has(signal) || b.has(signal)),
{
    SignalSet::lemma_from_bits(a.bits() | b.bits());
    let x = a.bits();
    let y = b.bits();
    assert(((x | y) & 1u8 != 0u8) == ((x & 1u8 != 0u8) || (y & 1u8 != 0u8)) && ((x | y) & 2u8 != 0u8) == ((x & 2u8
        != 0u8) || (y & 2u8 != 0u8)) && ((x | y) & 4u8 != 0u8) == ((x & 4u8 != 0u8) || (y & 4u8 != 0u8))) by (bit_vector);
}

/// Joining two signals with `|` gives the set of exactly those two.
pub proof fn lemma_signal_or_signal(a: Signal, b: Signal, signal: Signal)
    ensures
        <Signal as BitOrSpec<Signal>>::bitor_spec(a, b).has(signal) <==> (signal == a || signal == b),
{
    SignalSet::lemma_from_bits(signal_bit(a) | signal_bit(b));
    assert(((1u8 | 1u8) & 1u8 != 0u8) && ((1u8 | 1u8) & 2u8 == 0u8) && ((1u8 | 1u8) & 4u8 == 0u8)
        && ((1u8 | 2u8) & 1u8 != 0u8) && ((1u8 | 2u8) & 2u8 != 0u8) && ((1u8 | 2u8) & 4u8 == 0u8)
        && ((1u8 | 4u8) & 1u8 != 0u8) && ((1u8 | 4u8) & 2u8 == 0u8) && ((1u8 | 4u8) & 4u8 != 0u8)
        && ((2u8 | 1u8) & 1u8 != 0u8) && ((2u8 | 1u8) & 2u8 != 0u8) && ((2u8 | 1u8) & 4u8 == 0u8)
        && ((2u8 | 2u8) & 1u8 == 0u8) && ((2u8 | 2u8) & 2u8 != 0u8) && ((2u8 | 2u8) & 4u8 == 0u8)
        && ((2u8 | 4u8) & 1u8 == 0u8) && ((2u8 | 4u8) & 2u8 != 0u8) && ((2u8 | 4u8) & 4u8 != 0u8)
        && ((4u8 | 1u8) & 1u8 != 0u8) && ((4u8 | 1u8) & 2u8 == 0u8) && ((4u8 | 1u8) & 4u8 != 0u8)
        && ((4u8 | 2u8) & 1u8 == 0u8) && ((4u8 | 2u8) & 2u8 != 0u8) && ((4u8 | 2u8) & 4u8 != 0u8)
        && ((4u8 | 4u8) & 1u8 == 0u8) && ((4u8 | 4u8) & 2u8 == 0u8) && ((4u8 | 4u8) & 4u8 != 0u8)) by (bit_vector);
}

/// The signals of a set, one at a time, in the order interrupt, quit,
/// terminate.
#[derive(Debug)]
pub struct SignalSetIter(SignalSet);

impl SignalSetIter {
    /// The signals left to hand out.
    pub closed spec fn remaining(&self) -> SignalSet {
        self.0
    }

    /// The next signal, which leaves the set, or `None` when none is left.
    pub fn next(&mut self) -> (s: Option<Signal>)
        ensures
            old(self).remaining().bits() & INTERRUPT_BIT != 0 ==> s == Some(Signal::Interrupt),
            old(self).remaining().bits() & INTERRUPT_BIT == 0 && old(self).remaining().bits()
                & QUIT_BIT != 0 ==> s == Some(Signal::Quit),
            old(self).remaining().bits() & INTERRUPT_BIT == 0 && old(self).remaining().bits()
                & QUIT_BIT == 0 && old(self).remaining().bits() & TERMINATE_BIT != 0 ==> s == Some(
                Signal::Terminate,
            ),
            signal_count(old(self).remaining().bits()) == 0 ==> s is None,
            s matches Some(signal) ==> final(self).remaining().bits() == old(self).remaining().bits()
                & !signal_bit(signal),
            s is None ==> final(self).remaining() == old(self).remaining(),
            s is Some ==> signal_count(final(self).remaining().bits()) + 1 == signal_count(
                old(self).remaining().bits(),
            ),
    {
        proof {
            use_type_invariant(&self.0);
        }
        let bits = (self.0).0;
        let signal = if bits & INTERRUPT_BIT != 0 {
            Signal::Interrupt
        } else if bits & QUIT_BIT != 0 {
            Signal::Quit
        } else if bits & TERMINATE_BIT != 0 {
            Signal::Terminate
        } else {
            return None;
        };
        let bit = SignalSet::from(signal).0;
        proof {
            assert(bits < 8 ==> (bits & !bit) < 8) by (bit_vector);
            lemma_remove_signal(bits, bit);
        }
        self.0 = SignalSet(bits & !bit);
        Some(signal)
    }

    /// The number of signals left, as a lower and an upper bound.
    pub fn size_hint(&self) -> (h: (usize, Option<usize>))
        ensures
            h.0 == signal_count(self.remaining().bits()),
            h.1 == Some(h.0),
    {
        let size = self.0.size();
        (size, Some(size))
    }

    /// The number of signals left.
    pub fn count(self) -> (n: usize)
        ensures
            n == signal_count(self.remaining().bits()),
    {
        self.0.size()
    }

    /// The number of signals left.
    pub fn len(&self) -> (n: usize)
        ensures
            n == signal_count(self.remaining().bits()),
    {
        self.0.size()
    }
}

} // verus!

verus! {

/// The value of `libc::SIGINT`, the interrupt signal: 2 on the platforms
/// `libc` supports.
#[verifier::external_body]
fn raw_sigint() -> (n: i32)
    ensures
        n == 2,
{
    libc::SIGINT
}

/// The value of `libc::SIGQUIT`, the quit signal: 3 on the platforms `libc`
/// supports.
#[verifier::external_body]
fn raw_sigquit() -> (n: i32)
    ensures
        n == 3,
{
    libc::SIGQUIT
}

/// The value of `libc::SIGTERM`, the terminate signal: 15 on the platforms
/// `libc` supports.
#[verifier::external_body]
fn raw_sigterm() -> (n: i32)
    ensures
        n == 15,
{
    libc::SIGTERM
}

/// Different signals have different raw numbers, so that converting a signal
/// to its raw number and back gives the signal again.
pub proof fn lemma_raw_signal_injective(a: Signal, b: Signal)
    ensures
        raw_signal(a) == raw_signal(b) ==> a == b,
{
}

/// The raw Unix number of `signal`.
pub open spec fn raw_signal(signal: Signal) -> i32 {
    match signal {
        Signal::Interrupt => 2,
        Signal::Quit => 3,
        Signal::Terminate => 15,
    }
}

impl Signal {
    /// Convert the signal into a raw Unix signal.
    pub fn into_raw(self) -> (raw: i32)
        ensures
            raw == raw_signal(self),
    {
        match self {
            Signal::Interrupt => raw_sigint(),
            Signal::Quit => raw_sigquit(),
            Signal::Terminate => raw_sigterm(),
        }
    }

    /// Convert a raw Unix signal into a signal, `None` for signals other
    /// than the three supported ones.
    pub fn from_raw(raw_signal: i32) -> (s: Option<Signal>)
        ensures
            s matches Some(signal) ==> crate::os::signals::raw_signal(signal) == raw_signal,
            s is None ==> forall|signal: Signal| crate::os::signals::raw_signal(signal) != raw_signal,
    {
        if raw_signal == raw_sigint() {
            Some(Signal::Interrupt)
        } else if raw_signal == raw_sigquit() {
            Some(Signal::Quit)
        } else if raw_signal == raw_sigterm() {
            Some(Signal::Terminate)
        } else {
            None
        }
    }
}

} // verus!
