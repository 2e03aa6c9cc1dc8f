//! The association of a handle with a single system selector.

use vstd::prelude::*;

use std::sync::atomic::AtomicUsize;

verus! {

/// The error of associating a handle with a second selector.
#[derive(Copy, Clone, PartialEq, Eq, Structural, Debug)]
pub struct AlreadyAssociated;

impl AlreadyAssociated {
    /// The text of the error.
    pub fn description(&self) -> (s: &'static str)
        ensures
            s@ == "socket already registered"@,
    {
        "socket already registered"
    }
}

/// The id of the selector a handle is associated with, 0 while it is not
/// associated with any; shared between threads.
#[derive(Debug)]
pub struct SelectorId {
    id: AtomicUsize,
}

impl SelectorId {
    /// A handle not associated with any selector.
    pub fn new() -> (s: SelectorId) {
        SelectorId { id: AtomicUsize::new(0) }
    }

    /// Whether a handle associated with the selector `current`, 0 for none,
    /// may be associated with the selector `selector`: where it has none yet,
    /// or has that one already.
    pub fn may_associate(current: usize, selector: usize) -> (r: bool)
        ensures
            r == (current == 0 || current == selector),
    {
        current == 0 || current == selector
    }

    /// Associate the handle with the selector with the id `selector`,
    /// unless it is associated with another one.
    ///
    /// What the handle is associated with is read from an atomic, whose
    /// value is not modelled; `may_associate` makes the decision on it.
    pub fn associate_selector(&self, selector: usize) -> (r: Result<(), AlreadyAssociated>) {
        let current = self.id.load(std::sync::atomic::Ordering::SeqCst);
        if SelectorId::may_associate(current, selector) {
            self.id.store(selector, std::sync::atomic::Ordering::SeqCst);
            Ok(())
        } else {
            Err(AlreadyAssociated)
        }
    }
}

impl Clone for SelectorId {
    fn clone(&self) -> (s: SelectorId) {
        SelectorId { id: AtomicUsize::new(self.id.load(std::sync::atomic::Ordering::SeqCst)) }
    }
}

} // verus!
