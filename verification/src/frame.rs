//! Frame kinds.

use vstd::prelude::*;

use crate::frame::header::Type;

pub mod header;
pub mod laws;

verus! {

/// Marks a header that precedes payload bytes of a stream.
#[derive(Copy, Clone, Debug)]
pub struct Data;

/// Marks a header that grants flow-control credit on a stream.
#[derive(Copy, Clone, Debug)]
pub struct WindowUpdate;

/// Marks a keepalive header of the connection.
#[derive(Copy, Clone, Debug)]
pub struct Ping;

/// Marks the header that ends the connection.
#[derive(Copy, Clone, Debug)]
pub struct GoAway;

/// A frame kind known at compile time, tied to the discriminant that headers
/// of this kind carry at run time.
pub trait Kind {
    /// The discriminant of this kind.
    spec fn spec_typ() -> Type;

    fn typ() -> (t: Type)
        ensures
            t == Self::spec_typ(),
    ;
}

impl Kind for Data {
    open spec fn spec_typ() -> Type {
        Type::Data
    }

    fn typ() -> Type {
        Type::Data
    }
}

impl Kind for WindowUpdate {
    open spec fn spec_typ() -> Type {
        Type::WindowUpdate
    }

    fn typ() -> Type {
        Type::WindowUpdate
    }
}

impl Kind for Ping {
    open spec fn spec_typ() -> Type {
        Type::Ping
    }

    fn typ() -> Type {
        Type::Ping
    }
}

impl Kind for GoAway {
    open spec fn spec_typ() -> Type {
        Type::GoAway
    }

    fn typ() -> Type {
        Type::GoAway
    }
}

} // verus!
