//! Tokens: plain numbers that identify registrations.

use vstd::prelude::*;

verus! {

/// Associates readiness notifications with a registered handle.
#[derive(Copy, Clone, PartialEq, Eq, Structural, PartialOrd, Ord, Hash, Debug)]
pub struct Token(pub usize);

impl From<usize> for Token {
    fn from(val: usize) -> (t: Token) {
        Token(val)
    }
}

impl vstd::std_specs::convert::FromSpecImpl<usize> for Token {
    open spec fn obeys_from_spec() -> bool {
        true
    }

    open spec fn from_spec(v: usize) -> Token {
        Token(v)
    }
}

impl From<Token> for usize {
    fn from(val: Token) -> (n: usize) {
        val.0
    }
}

impl vstd::std_specs::convert::FromSpecImpl<Token> for usize {
    open spec fn obeys_from_spec() -> bool {
        true
    }

    open spec fn from_spec(v: Token) -> usize {
        v.0
    }
}

} // verus!
