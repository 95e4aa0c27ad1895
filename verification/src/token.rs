//! The capability that attributes protocol calls to one client.

use vstd::prelude::*;

verus! {

/// An opaque capability, created once per session and passed to every call
/// that must be attributable to this client. Two tokens are the same
/// capability exactly when their identifiers agree.
#[derive(Clone, Copy, Debug, PartialEq, Eq, Structural)]
pub struct ClientToken {
    id: u64,
}

impl ClientToken {
    /// The identifier that tells this token from every other.
    pub closed spec fn ident(self) -> u64 {
        self.id
    }

    /// Makes the token with the given identifier.
    pub fn new(id: u64) -> (token: ClientToken)
        ensures
            token.ident() == id,
    {
        ClientToken { id }
    }

    /// The token's identifier.
    pub fn id(&self) -> (id: u64)
        ensures
            id == self.ident(),
    {
        self.id
    }

    /// Whether both tokens are the same capability.
    pub fn matches(&self, other: &ClientToken) -> (same: bool)
        ensures
            same == (self.ident() == other.ident()),
            same == (*self == *other),
    {
        self.id == other.id
    }
}

} // verus!
