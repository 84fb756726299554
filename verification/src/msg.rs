//! The messages that the handlers take and the answers they give.

use vstd::prelude::*;

verus! {

/// Who sent a message.
#[derive(Clone, Debug, PartialEq, Eq)]
pub struct MessageInfo {
    /// The address of the sender.
    pub sender: String,
}

/// Creates the counter.
#[derive(Clone, Copy, Debug, PartialEq, Eq, Structural)]
pub struct InstantiateMsg {
    /// The value the counter starts at.
    pub count: i32,
}

/// Changes the counter.
#[derive(Clone, Copy, Debug, PartialEq, Eq, Structural)]
pub enum ExecuteMsg {
    /// Adds one to the counter. Anyone may send it.
    Increment,
    /// Sets the counter to `count`. Only the owner may send it.
    Reset { count: i32 },
}

/// Reads the counter.
#[derive(Clone, Copy, Debug, PartialEq, Eq, Structural)]
pub enum QueryMsg {
    /// Asks for the current value.
    GetCount,
}

/// The answer to `QueryMsg::GetCount`.
#[derive(Clone, Copy, Debug, PartialEq, Eq, Structural)]
pub struct GetCountResponse {
    /// The current value of the counter.
    pub count: i32,
}

} // verus!
