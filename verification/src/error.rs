//! The classes of failure the dashboard tells apart.

use vstd::prelude::*;

verus! {

/// The broad class of a failure.
#[derive(Clone, Copy, PartialEq, Eq, Structural, Debug)]
pub enum ErrorKind {
    /// The request could not be sent, or no response came back.
    Network,
    /// The response did not have the expected shape.
    Decode,
    /// Something referred to by name or id is not in the current state.
    NotFoundLocally,
    /// The user's input was refused.
    Validation,
}

} // verus!
