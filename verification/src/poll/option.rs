//! Poll options.

use vstd::prelude::*;

verus! {

/// Option supplied when registering a handle with a [`Poller`]: how to
/// deliver its readiness events.
///
/// [`Poller`]: crate::poll::Poller
#[derive(Copy, Clone, PartialEq, Eq, Structural, PartialOrd, Ord, Hash, Debug)]
pub enum PollOption {
    /// Edge-triggered notifications: an event when the readiness changes.
    Edge,
    /// Level-triggered notifications: an event on every poll while ready.
    Level,
    /// Oneshot notifications: a single event, after which the handle must be
    /// reregistered.
    Oneshot,
}

/// The poll option under its other name.
pub type PollOpt = PollOption;

} // verus!
