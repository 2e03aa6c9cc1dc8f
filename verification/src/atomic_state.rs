//! A readiness state shared between threads.

use vstd::prelude::*;

use std::sync::atomic::{AtomicUsize, Ordering};

use crate::readiness::{PollOpt, ReadinessState, Ready, DROPPED_MASK, QUEUED_MASK};

verus! {

/// A [`ReadinessState`] in an atomic word.
///
/// The value of the atomic is not modelled: what is read from it is a state
/// about which nothing is known, and the decisions taken on it are verified
/// by the functions of `ReadinessState`.
#[derive(Debug)]
pub struct AtomicState {
    inner: AtomicUsize,
}

impl AtomicState {
    /// An atomic holding the state of `ReadinessState::new(interest, opt)`.
    pub fn new(interest: Ready, opt: PollOpt) -> (s: AtomicState) {
        let state = ReadinessState::new(interest, opt);
        AtomicState { inner: AtomicUsize::new(usize::from(state)) }
    }

    /// Reads the state.
    pub fn load(&self, order: Ordering) -> (s: ReadinessState) {
        ReadinessState::from(self.inner.load(order))
    }

    /// Flags the state as dropped and queued, and returns whether the node
    /// has to be queued: where it was not queued before.
    pub fn flag_as_dropped(&self) -> (queue: bool) {
        let prev = ReadinessState::from(self.inner.fetch_or(DROPPED_MASK | QUEUED_MASK, Ordering::Release));
        !prev.is_queued()
    }
}

} // verus!
