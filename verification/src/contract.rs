//! The three entry points of the contract.

use crate::decimal::decimal;
use crate::decimal::decimal_string;
use crate::error::ContractError;
use crate::execute::action_attributes;
use crate::execute::increment;
use crate::execute::reset;
use crate::model::can_increment;
use crate::model::execute_spec;
use crate::model::instantiate_spec;
use crate::model::store_after;
use crate::msg::ExecuteMsg;
use crate::msg::GetCountResponse;
use crate::msg::InstantiateMsg;
use crate::msg::MessageInfo;
use crate::msg::QueryMsg;
use crate::query::answers_count;
use crate::query::count;
use crate::response::add_attribute;
use crate::response::new_response;
use crate::response::only_attributes;
use crate::response::response_attributes;
use crate::state::ContractVersion;
use crate::state::State;
use crate::state::Store;
use crate::state::StoreView;
use crate::state::CONTRACT_NAME;
use crate::state::CONTRACT_VERSION;
use cosmwasm_std::Response;
use vstd::prelude::*;
use vstd::string::StringExecFns;

verus! {

/// The attributes that acknowledge an instantiation by `sender` with the
/// initial value `count`.
pub open spec fn instantiate_attributes(sender: Seq<char>, count: int) -> Seq<
    (Seq<char>, Seq<char>),
> {
    seq![("method"@, "instantiate"@), ("owner"@, sender), ("count"@, decimal(count))]
}

/// The name by which an execute message is acknowledged.
pub open spec fn action_name(msg: ExecuteMsg) -> Seq<char> {
    match msg {
        ExecuteMsg::Increment => "increment"@,
        ExecuteMsg::Reset { .. } => "reset"@,
    }
}

/// Whether `res` is the answer that the query `msg` owes on the storage `s`.
pub open spec fn answers_query(
    s: StoreView,
    msg: QueryMsg,
    res: Result<GetCountResponse, ContractError>,
) -> bool {
    match msg {
        QueryMsg::GetCount => answers_count(s, res),
    }
}

/// Creates the counter with the value `msg.count` and makes `info.sender`
/// its owner. Records the contract's name and version beside it.
///
/// Always succeeds, and replaces whatever the storage held.
pub fn instantiate(store: &mut Store, info: MessageInfo, msg: InstantiateMsg) -> (res: Result<
    Response,
    ContractError,
>)
    ensures
        final(store)@ == instantiate_spec(info.sender@, msg.count as int),
        res matches Ok(r) && response_attributes(r) == instantiate_attributes(
            info.sender@,
            msg.count as int,
        ) && only_attributes(r),
{
    let state = State { count: msg.count, owner: info.sender.clone() };
    store.version = Some(
        ContractVersion {
            contract: String::from_str(CONTRACT_NAME),
            version: String::from_str(CONTRACT_VERSION),
        },
    );
    store.state = Some(state);
    let count_text = decimal_string(msg.count);
    proof {
        reveal_strlit("method");
        reveal_strlit("owner");
        reveal_strlit("count");
    }
    let response = add_attribute(new_response(), "method", "instantiate");
    let response = add_attribute(response, "owner", info.sender.as_str());
    let response = add_attribute(response, "count", count_text.as_str());
    Ok(response)
}

/// Carries out the change that `msg` asks for on behalf of `info.sender`.
///
/// A failure changes nothing: `NotFound` when the contract has not been
/// instantiated, `Unauthorized` when a reset comes from someone other than
/// the owner. For an increment the counter must have room for the step.
pub fn execute(store: &mut Store, info: MessageInfo, msg: ExecuteMsg) -> (res: Result<
    Response,
    ContractError,
>)
    requires
        msg is Increment ==> can_increment(old(store)@),
    ensures
        final(store)@ == store_after(old(store)@, execute_spec(old(store)@, info.sender@, msg)),
        match res {
            Ok(r) => execute_spec(old(store)@, info.sender@, msg) is Ok && response_attributes(r)
                == action_attributes(action_name(msg)) && only_attributes(r),
            Err(e) => execute_spec(old(store)@, info.sender@, msg) == Err::<StoreView, _>(e),
        },
{
    match msg {
        ExecuteMsg::Increment => increment(store),
        ExecuteMsg::Reset { count } => reset(store, info, count),
    }
}

/// Answers the query `msg` from the storage, which it leaves as it is.
///
/// Fails with `NotFound` when the contract has not been instantiated.
pub fn query(store: &Store, msg: QueryMsg) -> (res: Result<GetCountResponse, ContractError>)
    ensures
        answers_query(store@, msg, res),
{
    match msg {
        QueryMsg::GetCount => count(store),
    }
}

} // verus!
