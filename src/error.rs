use vstd::prelude::*;

verus! {

/// Failures of the library's operations.
#[derive(Debug, Clone, Copy, PartialEq, Eq, Structural)]
pub enum Error {
    /// A referenced game, player or present does not exist, or no eligible
    /// player is left to roll.
    NotFound,
    /// An update carried no field to change.
    Empty,
    /// A list order names no sortable column.
    InvalidOrder,
    /// A guard failed because the state was already changed by another action.
    Conflict,
    /// The store could not commit the transaction.
    Storage,
    /// An unexpected answer from the store.
    Unknown,
}

/// HTTP status code that a failure is reported with.
pub open spec fn status_of(e: Error) -> u16 {
    match e {
        Error::Empty | Error::InvalidOrder => 400,
        Error::NotFound => 404,
        Error::Conflict => 409,
        Error::Storage | Error::Unknown => 500,
    }
}

impl Error {
    /// The HTTP status code with which this failure reaches a client.
    pub fn status(&self) -> (r: u16)
        ensures
            r == status_of(*self),
    {
        match self {
            Error::Empty | Error::InvalidOrder => 400,
            Error::NotFound => 404,
            Error::Conflict => 409,
            Error::Storage | Error::Unknown => 500,
        }
    }
}

} // verus!
