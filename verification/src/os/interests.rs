//! Readiness interests.

use vstd::prelude::*;
use vstd::string::StringExecFns;

verus! {

/// Bit of readable interest.
pub const READABLE_BIT: u8 = 1;

/// Bit of writable interest.
pub const WRITABLE_BIT: u8 = 2;

/// Interests supplied when registering a handle with a readiness queue.
///
/// Interests indicate what readiness should be monitored for: a socket
/// registered with readable interests that becomes writable gives no event.
/// A set of interests is never empty.
#[derive(Copy, Clone, PartialEq, Eq, Structural, Debug)]
pub struct Interests(u8);

impl Interests {
    /// The raw bits of the interests.
    pub closed spec fn bits(self) -> u8 {
        self.0
    }

    /// Interests hold readable or writable interest, or both, and nothing
    /// else.
    #[verifier::type_invariant]
    closed spec fn wf(self) -> bool {
        self.0 == 1 || self.0 == 2 || self.0 == 3
    }

    /// Readable interest.
    pub fn readable() -> (i: Interests)
        ensures
            i.bits() == READABLE_BIT,
    {
        Interests(READABLE_BIT)
    }

    /// Writable interest.
    pub fn writable() -> (i: Interests)
        ensures
            i.bits() == WRITABLE_BIT,
    {
        Interests(WRITABLE_BIT)
    }

    /// Both readable and writable interests.
    pub fn both() -> (i: Interests)
        ensures
            i.bits() == READABLE_BIT | WRITABLE_BIT,
    {
        assert(1u8 | 2u8 == 3u8) by (bit_vector);
        Interests(3)
    }

    /// Returns true if the value includes readable interest.
    pub fn is_readable(self) -> (r: bool)
        ensures
            r == (self.bits() & READABLE_BIT != 0),
    {
        self.0 & READABLE_BIT != 0
    }

    /// Returns true if the value includes writable interest.
    pub fn is_writable(self) -> (r: bool)
        ensures
            r == (self.bits() & WRITABLE_BIT != 0),
    {
        self.0 & WRITABLE_BIT != 0
    }

    /// Every set of interests holds readable or writable interest.
    pub fn is_readable_or_writable(self) -> (r: bool)
        ensures
            r,
            r == (self.bits() & READABLE_BIT != 0 || self.bits() & WRITABLE_BIT != 0),
    {
        proof {
            use_type_invariant(self);
            assert(self.0 == 1 || self.0 == 2 || self.0 == 3);
            assert(1u8 & 1u8 != 0u8) by (bit_vector);
            assert(2u8 & 2u8 != 0u8) by (bit_vector);
            assert(3u8 & 1u8 != 0u8) by (bit_vector);
        }
        self.is_readable() || self.is_writable()
    }

    /// The interests as text: `READABLE`, `WRITABLE` or
    /// `READABLE | WRITABLE`.
    pub fn debug_text(self) -> (s: String)
        ensures
            s@ == (if self.bits() & READABLE_BIT != 0 && self.bits() & WRITABLE_BIT != 0 {
                "READABLE | WRITABLE"@
            } else if self.bits() & READABLE_BIT != 0 {
                "READABLE"@
            } else {
                "WRITABLE"@
            }),
    {
        proof {
            use_type_invariant(self);
        }
        if self.is_readable() && self.is_writable() {
            String::from_str("READABLE | WRITABLE")
        } else if self.is_readable() {
            String::from_str("READABLE")
        } else {
            String::from_str("WRITABLE")
        }
    }
}

impl core::ops::BitOr for Interests {
    type Output = Interests;

    fn bitor(self, rhs: Interests) -> (r: Interests) {
        proof {
            use_type_invariant(self);
            use_type_invariant(rhs);
            let a = self.0;
            let b = rhs.0;
            assert((a == 1 || a == 2 || a == 3) && (b == 1 || b == 2 || b == 3) ==> ((a | b) == 1
                || (a | b) == 2 || (a | b) == 3)) by (bit_vector);
        }
        Interests(self.0 | rhs.0)
    }
}

impl vstd::std_specs::ops::BitOrSpecImpl for Interests {
    open spec fn obeys_bitor_spec() -> bool {
        true
    }

    open spec fn bitor_req(self, rhs: Interests) -> bool {
        true
    }

    open spec fn bitor_spec(self, rhs: Interests) -> Interests {
        Interests::union_spec(self, rhs)
    }
}

impl Interests {
    /// The interests of both `a` and `b`.
    pub closed spec fn union_spec(a: Interests, b: Interests) -> Interests {
        Interests(a.0 | b.0)
    }

    /// The bits of a union are the union of the bits.
    pub proof fn lemma_union(a: Interests, b: Interests)
        ensures
            Interests::union_spec(a, b).bits() == a.bits() | b.bits(),
    {
    }
}

} // verus!
