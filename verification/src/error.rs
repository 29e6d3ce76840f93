//! The one error type behind every operation of the boundary.

use vstd::prelude::*;

verus! {

/// Why an operation at the boundary did not succeed.
#[derive(Debug, PartialEq, Eq)]
pub enum BridgeError {
    /// The host passed no text where text was expected.
    InvalidInput,
    /// The text does not follow the lexical rules of the identity subsystem.
    InvalidFormat,
    /// A collaborator reported a failure; the payload is its own description.
    CollaboratorFailure(String),
}

} // verus!
