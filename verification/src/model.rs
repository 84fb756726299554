//! The contract as a transition system over the model of its storage.
//!
//! Each handler's contract says that it does to the storage what the
//! transition of the same name does to the model.

use crate::error::ContractError;
use crate::msg::ExecuteMsg;
use crate::msg::QueryMsg;
use crate::state::ContractVersionView;
use crate::state::StateView;
use crate::state::StoreView;
use crate::state::CONTRACT_NAME;
use crate::state::CONTRACT_VERSION;
use vstd::prelude::*;

verus! {

/// The storage after instantiation by `sender` with the initial value
/// `count`: both records are written, over whatever was there.
pub open spec fn instantiate_spec(sender: Seq<char>, count: int) -> StoreView {
    StoreView {
        state: Some(StateView { count, owner: sender }),
        version: Some(
            ContractVersionView { contract: CONTRACT_NAME@, version: CONTRACT_VERSION@ },
        ),
    }
}

/// An increment: the counter grows by one, whoever asks.
pub open spec fn increment_spec(s: StoreView) -> Result<StoreView, ContractError> {
    match s.state {
        None => Err(ContractError::NotFound),
        Some(st) => Ok(
            StoreView { state: Some(StateView { count: st.count + 1, owner: st.owner }), ..s },
        ),
    }
}

/// A reset to `count` asked for by `sender`: granted to the owner alone.
pub open spec fn reset_spec(s: StoreView, sender: Seq<char>, count: int) -> Result<
    StoreView,
    ContractError,
> {
    match s.state {
        None => Err(ContractError::NotFound),
        Some(st) => if sender != st.owner {
            Err(ContractError::Unauthorized)
        } else {
            Ok(StoreView { state: Some(StateView { count, owner: st.owner }), ..s })
        },
    }
}

/// The transition that an execute message asks for.
pub open spec fn execute_spec(s: StoreView, sender: Seq<char>, msg: ExecuteMsg) -> Result<
    StoreView,
    ContractError,
> {
    match msg {
        ExecuteMsg::Increment => increment_spec(s),
        ExecuteMsg::Reset { count } => reset_spec(s, sender, count as int),
    }
}

/// The storage that a transition leaves behind: its result where it
/// succeeds, the storage it started from where it fails.
pub open spec fn store_after(s: StoreView, outcome: Result<StoreView, ContractError>) -> StoreView {
    match outcome {
        Ok(t) => t,
        Err(_) => s,
    }
}

/// The value that a count query reads.
pub open spec fn count_spec(s: StoreView) -> Result<int, ContractError> {
    match s.state {
        None => Err(ContractError::NotFound),
        Some(st) => Ok(st.count),
    }
}

/// The value that a query message reads.
pub open spec fn query_spec(s: StoreView, msg: QueryMsg) -> Result<int, ContractError> {
    match msg {
        QueryMsg::GetCount => count_spec(s),
    }
}

/// Whether the stored counter, if there is one, can take one more step
/// without leaving the range of `i32`.
pub open spec fn can_increment(s: StoreView) -> bool {
    s.state matches Some(st) ==> st.count < i32::MAX
}

/// The storage after each of `senders`, in turn, has sent an increment.
pub open spec fn increments_spec(s: StoreView, senders: Seq<Seq<char>>) -> Result<
    StoreView,
    ContractError,
>
    decreases senders.len(),
{
    if senders.len() == 0 {
        Ok(s)
    } else {
        match increments_spec(s, senders.drop_last()) {
            Ok(t) => execute_spec(t, senders.last(), ExecuteMsg::Increment),
            Err(e) => Err(e),
        }
    }
}

} // verus!
