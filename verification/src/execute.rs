//! The two messages that change the counter.

use crate::error::ContractError;
use crate::model::can_increment;
use crate::model::increment_spec;
use crate::model::reset_spec;
use crate::model::store_after;
use crate::msg::MessageInfo;
use crate::response::add_attribute;
use crate::response::new_response;
use crate::response::only_attributes;
use crate::response::response_attributes;
use crate::state::Store;
use crate::state::StoreView;
use cosmwasm_std::Response;
use vstd::prelude::*;

verus! {

/// The attributes that acknowledge the action `action`.
pub open spec fn action_attributes(action: Seq<char>) -> Seq<(Seq<char>, Seq<char>)> {
    seq![("action"@, action)]
}

/// Adds one to the counter, for any sender.
///
/// Fails with `NotFound`, and changes nothing, when the contract has not
/// been instantiated. The counter must have room for the step.
pub fn increment(store: &mut Store) -> (res: Result<Response, ContractError>)
    requires
        can_increment(old(store)@),
    ensures
        final(store)@ == store_after(old(store)@, increment_spec(old(store)@)),
        match res {
            Ok(r) => increment_spec(old(store)@) is Ok && response_attributes(r)
                == action_attributes("increment"@) && only_attributes(r),
            Err(e) => increment_spec(old(store)@) == Err::<StoreView, _>(e),
        },
{
    match &mut store.state {
        Some(state) => {
            state.count = state.count + 1;
        },
        None => {
            return Err(ContractError::NotFound);
        },
    }
    proof {
        reveal_strlit("action");
    }
    Ok(add_attribute(new_response(), "action", "increment"))
}

/// Sets the counter to `count` on behalf of `info.sender`.
///
/// Fails with `NotFound` when the contract has not been instantiated and
/// with `Unauthorized` when the sender is not the owner; a failure changes
/// nothing.
pub fn reset(store: &mut Store, info: MessageInfo, count: i32) -> (res: Result<
    Response,
    ContractError,
>)
    ensures
        final(store)@ == store_after(
            old(store)@,
            reset_spec(old(store)@, info.sender@, count as int),
        ),
        match res {
            Ok(r) => reset_spec(old(store)@, info.sender@, count as int) is Ok
                && response_attributes(r) == action_attributes("reset"@) && only_attributes(r),
            Err(e) => reset_spec(old(store)@, info.sender@, count as int) == Err::<StoreView, _>(e),
        },
{
    match &mut store.state {
        Some(state) => {
            if !(info.sender == state.owner) {
                return Err(ContractError::Unauthorized);
            }
            state.count = count;
        },
        None => {
            return Err(ContractError::NotFound);
        },
    }
    proof {
        reveal_strlit("action");
    }
    Ok(add_attribute(new_response(), "action", "reset"))
}

} // verus!
