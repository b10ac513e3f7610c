//! Stream identifiers.

use vstd::prelude::*;

verus! {

/// Identifies one logical stream of a connection.
///
/// The value 0 does not name a stream: it marks frames that concern the
/// connection as a whole.
#[derive(Copy, Clone, Debug, PartialEq, Eq, Hash, Structural)]
pub struct Id(pub u32);

impl Id {
    /// The identifier reserved for the connection itself.
    pub open spec fn session() -> Id {
        Id(0)
    }

    /// Whether this identifier is the one reserved for the connection.
    pub open spec fn spec_is_session(self) -> bool {
        self == Id::session()
    }

    pub fn new(id: u32) -> (r: Id)
        ensures
            r == Id(id),
    {
        Id(id)
    }

    /// True for the identifier of connection-scoped frames, false for that of
    /// any stream.
    #[verifier::when_used_as_spec(spec_is_session)]
    pub fn is_session(self) -> (b: bool)
        ensures
            b == (self == Id::session()),
    {
        self.0 == 0
    }

    pub fn as_u32(self) -> (n: u32)
        ensures
            n == self.0,
    {
        self.0
    }
}

} // verus!
