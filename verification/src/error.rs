//! Why a handler refuses a message.

use vstd::prelude::*;

verus! {

/// The failures of the contract's handlers.
#[derive(Clone, Copy, Debug, PartialEq, Eq, Structural)]
pub enum ContractError {
    /// The state record has never been written: the contract was not
    /// instantiated.
    NotFound,
    /// The sender is not the owner of the counter.
    Unauthorized,
}

} // verus!
