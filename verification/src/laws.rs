//! What holds of the contract over sequences of calls.
//!
//! Every handler's contract is stated over the transitions of the model, so
//! each statement here holds of the handlers themselves.

use crate::contract::answers_query;
use crate::error::ContractError;
use crate::model::can_increment;
use crate::model::count_spec;
use crate::model::execute_spec;
use crate::model::increments_spec;
use crate::model::instantiate_spec;
use crate::model::reset_spec;
use crate::model::store_after;
use crate::msg::ExecuteMsg;
use crate::msg::GetCountResponse;
use crate::msg::QueryMsg;
use crate::state::StateView;
use crate::state::StoreView;
use vstd::prelude::*;

verus! {

/// After an instantiation by `sender` with the value `count`, a count query
/// reads `count`, and a reset asked for by anyone but `sender` is refused as
/// unauthorized.
pub proof fn instantiate_sets_count_and_owner(
    sender: Seq<char>,
    count: int,
    other: Seq<char>,
    target: int,
)
    ensures
        count_spec(instantiate_spec(sender, count)) == Ok::<int, ContractError>(count),
        other != sender ==> reset_spec(instantiate_spec(sender, count), other, target) == Err::<
            StoreView,
            _,
        >(ContractError::Unauthorized),
{
}

/// Increments add up: once each of `senders` has sent one, whoever they
/// are, a counter that stood at `c` stands at `c` plus their number, and
/// nothing else in the storage has changed.
pub proof fn increments_add_up(s: StoreView, senders: Seq<Seq<char>>)
    requires
        s.state is Some,
    ensures
        increments_spec(s, senders) == Ok::<StoreView, ContractError>(
            StoreView {
                state: Some(
                    StateView {
                        count: s.state->Some_0.count + senders.len(),
                        owner: s.state->Some_0.owner,
                    },
                ),
                ..s
            },
        ),
    decreases senders.len(),
{
    if senders.len() > 0 {
        increments_add_up(s, senders.drop_last());
    }
}

/// A run of increments that ends within the range of `i32` stays within it:
/// before each step the counter has room for that step, so every call of
/// the run is one that the handlers accept.
pub proof fn increments_have_room(s: StoreView, senders: Seq<Seq<char>>, done: int)
    requires
        s.state is Some,
        s.state->Some_0.count + senders.len() <= i32::MAX,
        0 <= done < senders.len(),
    ensures
        increments_spec(s, senders.take(done)) matches Ok(t) && can_increment(t),
{
    increments_add_up(s, senders.take(done));
}

/// A reset by the owner succeeds, and a count query then reads the value it
/// was given.
pub proof fn reset_by_owner_sets_count(s: StoreView, count: int)
    requires
        s.state is Some,
    ensures
        reset_spec(s, s.state->Some_0.owner, count) is Ok,
        count_spec(store_after(s, reset_spec(s, s.state->Some_0.owner, count))) == Ok::<
            int,
            ContractError,
        >(count),
{
}

/// A reset by anyone but the owner is refused as unauthorized and leaves
/// the storage, and with it the counter, as it was.
pub proof fn reset_by_other_is_refused(s: StoreView, sender: Seq<char>, count: int)
    requires
        s.state is Some,
        sender != s.state->Some_0.owner,
    ensures
        reset_spec(s, sender, count) == Err::<StoreView, _>(ContractError::Unauthorized),
        store_after(s, reset_spec(s, sender, count)) == s,
        count_spec(store_after(s, reset_spec(s, sender, count))) == count_spec(s),
{
}

/// Queries are repeatable: on one storage, any two answers to the same
/// query are the same answer.
pub proof fn query_is_repeatable(
    s: StoreView,
    msg: QueryMsg,
    first: Result<GetCountResponse, ContractError>,
    second: Result<GetCountResponse, ContractError>,
)
    requires
        answers_query(s, msg, first),
        answers_query(s, msg, second),
    ensures
        first == second,
{
}

/// No execute message creates, deletes or re-owns the state record, nor
/// touches the version record: an uninstantiated storage stays so, and an
/// instantiated one keeps its owner.
pub proof fn execute_keeps_owner(s: StoreView, sender: Seq<char>, msg: ExecuteMsg)
    ensures
        ({
            let t = store_after(s, execute_spec(s, sender, msg));
            &&& t.version == s.version
            &&& t.state is Some <==> s.state is Some
            &&& s.state is Some ==> t.state->Some_0.owner == s.state->Some_0.owner
        }),
{
}

/// An execute message changes the counter in one of two ways only: an
/// increment adds one to it, and a reset by the owner sets it to the value
/// given. Whatever fails leaves it as it was.
pub proof fn execute_changes_count(s: StoreView, sender: Seq<char>, msg: ExecuteMsg)
    requires
        s.state is Some,
    ensures
        ({
            let before = s.state->Some_0;
            let after = store_after(s, execute_spec(s, sender, msg)).state->Some_0;
            match msg {
                ExecuteMsg::Increment => after.count == before.count + 1,
                ExecuteMsg::Reset { count } => after.count == (if sender == before.owner {
                    count as int
                } else {
                    before.count
                }),
            }
        }),
{
}

} // verus!
