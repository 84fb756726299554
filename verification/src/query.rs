//! The message that reads the counter.

use crate::error::ContractError;
use crate::model::count_spec;
use crate::msg::GetCountResponse;
use crate::state::Store;
use crate::state::StoreView;
use vstd::prelude::*;

verus! {

/// Whether `res` is the answer that a count query owes on the storage `s`:
/// the stored value, or `NotFound` when nothing is stored.
pub open spec fn answers_count(
    s: StoreView,
    res: Result<GetCountResponse, ContractError>,
) -> bool {
    match res {
        Ok(r) => count_spec(s) == Ok::<int, ContractError>(r.count as int),
        Err(e) => count_spec(s) == Err::<int, ContractError>(e),
    }
}

/// Reads the current value of the counter.
///
/// Fails with `NotFound` when the contract has not been instantiated.
pub fn count(store: &Store) -> (res: Result<GetCountResponse, ContractError>)
    ensures
        answers_count(store@, res),
{
    match &store.state {
        Some(state) => Ok(GetCountResponse { count: state.count }),
        None => Err(ContractError::NotFound),
    }
}

} // verus!
