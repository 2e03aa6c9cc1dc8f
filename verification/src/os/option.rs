//! Registration options.

use vstd::prelude::*;
use vstd::string::StringExecFns;

verus! {

/// Bit of edge-triggered notifications; level-triggered is its absence.
pub const EDGE_BIT: u8 = 1;

/// Bit of oneshot notifications.
pub const ONESHOT_BIT: u8 = 2;

/// Option supplied when registering a handle with a readiness queue.
///
/// A registration requests edge-triggered or level-triggered events, and
/// optionally oneshot events: a handle registered with the oneshot option
/// receives a single event and then has to be reregistered to receive more.
/// Edge and level triggers cannot be combined.
#[derive(Copy, Clone, PartialEq, Eq, Structural, Debug)]
pub struct RegisterOption(u8);

impl RegisterOption {
    /// The raw bits of the option.
    pub closed spec fn bits(self) -> u8 {
        self.0
    }

    /// The option with the bits `bits`.
    pub closed spec fn from_bits_spec(bits: u8) -> RegisterOption {
        RegisterOption(bits)
    }

    /// The bits of `from_bits_spec(bits)` are `bits`.
    pub proof fn lemma_from_bits(bits: u8)
        ensures
            Self::from_bits_spec(bits).bits() == bits,
    {
    }

    /// Level-triggered notifications.
    pub fn level() -> (o: RegisterOption)
        ensures
            o.bits() == 0,
    {
        RegisterOption(0)
    }

    /// Edge-triggered notifications.
    pub fn edge() -> (o: RegisterOption)
        ensures
            o.bits() == EDGE_BIT,
    {
        RegisterOption(EDGE_BIT)
    }

    /// Oneshot notifications.
    pub fn oneshot() -> (o: RegisterOption)
        ensures
            o.bits() == ONESHOT_BIT,
    {
        RegisterOption(ONESHOT_BIT)
    }

    /// Returns true if the value includes level trigger.
    pub fn is_level(self) -> (r: bool)
        ensures
            r == (self.bits() & EDGE_BIT == 0),
    {
        !self.is_edge()
    }

    /// Returns true if the value includes edge trigger.
    pub fn is_edge(self) -> (r: bool)
        ensures
            r == (self.bits() & EDGE_BIT != 0),
    {
        self.0 & EDGE_BIT != 0
    }

    /// Returns true if the value includes oneshot notification.
    pub fn is_oneshot(self) -> (r: bool)
        ensures
            r == (self.bits() & ONESHOT_BIT != 0),
    {
        self.0 & ONESHOT_BIT != 0
    }

    /// The option as text: `LEVEL` or `EDGE`, followed by ` | ONESHOT` for
    /// oneshot notifications.
    pub fn debug_text(self) -> (s: String)
        ensures
            s@ == (if self.bits() & EDGE_BIT != 0 {
                if self.bits() & ONESHOT_BIT != 0 {
                    "EDGE | ONESHOT"@
                } else {
                    "EDGE"@
                }
            } else {
                if self.bits() & ONESHOT_BIT != 0 {
                    "LEVEL | ONESHOT"@
                } else {
                    "LEVEL"@
                }
            }),
    {
        match (self.is_edge(), self.is_oneshot()) {
            (false, false) => String::from_str("LEVEL"),
            (true, false) => String::from_str("EDGE"),
            (false, true) => String::from_str("LEVEL | ONESHOT"),
            (true, true) => String::from_str("EDGE | ONESHOT"),
        }
    }
}

impl core::ops::BitOr for RegisterOption {
    type Output = RegisterOption;

    fn bitor(self, rhs: RegisterOption) -> (r: RegisterOption) {
        RegisterOption(self.0 | rhs.0)
    }
}

impl vstd::std_specs::ops::BitOrSpecImpl for RegisterOption {
    open spec fn obeys_bitor_spec() -> bool {
        true
    }

    open spec fn bitor_req(self, rhs: RegisterOption) -> bool {
        true
    }

    open spec fn bitor_spec(self, rhs: RegisterOption) -> RegisterOption {
        RegisterOption::from_bits_spec(self.bits() | rhs.bits())
    }
}

} // verus!
