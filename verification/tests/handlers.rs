use cosmwasm_std::Attribute;
use cosmwasm_std::Response;
use cw_counter::contract::execute;
use cw_counter::contract::instantiate;
use cw_counter::contract::query;
use cw_counter::error::ContractError;
use cw_counter::execute::increment;
use cw_counter::execute::reset;
use cw_counter::msg::ExecuteMsg;
use cw_counter::msg::GetCountResponse;
use cw_counter::msg::InstantiateMsg;
use cw_counter::msg::MessageInfo;
use cw_counter::msg::QueryMsg;
use cw_counter::query::count;
use cw_counter::state::ContractVersion;
use cw_counter::state::State;
use cw_counter::state::Store;
use cw_counter::state::CONTRACT_NAME;
use cw_counter::state::CONTRACT_VERSION;

fn from(sender: &str) -> MessageInfo {
    MessageInfo { sender: sender.to_string() }
}

fn instantiated(count: i32, sender: &str) -> Store {
    let mut store = Store::new();
    instantiate(&mut store, from(sender), InstantiateMsg { count }).unwrap();
    store
}

fn attributes(pairs: &[(&str, &str)]) -> Vec<Attribute> {
    pairs.iter().map(|(k, v)| Attribute::new(*k, *v)).collect()
}

fn assert_carries_only(response: &Response, pairs: &[(&str, &str)]) {
    assert_eq!(response.attributes, attributes(pairs));
    assert!(response.messages.is_empty());
    assert!(response.events.is_empty());
    assert_eq!(response.data, None);
}

#[test]
fn new_store_is_empty() {
    let store = Store::new();
    assert_eq!(store.state, None);
    assert_eq!(store.version, None);
}

#[test]
fn instantiate_writes_state_and_version() {
    let mut store = Store::new();
    let response = instantiate(&mut store, from("alice"), InstantiateMsg { count: 17 }).unwrap();
    assert_eq!(store.state, Some(State { count: 17, owner: "alice".to_string() }));
    assert_eq!(
        store.version,
        Some(ContractVersion {
            contract: "crates.io:cw-template".to_string(),
            version: CONTRACT_VERSION.to_string(),
        })
    );
    assert_eq!(CONTRACT_NAME, "crates.io:cw-template");
    assert_carries_only(
        &response,
        &[("method", "instantiate"), ("owner", "alice"), ("count", "17")],
    );
}

#[test]
fn instantiate_reports_negative_count() {
    let mut store = Store::new();
    let response = instantiate(&mut store, from("carol"), InstantiateMsg { count: -42 }).unwrap();
    assert_carries_only(
        &response,
        &[("method", "instantiate"), ("owner", "carol"), ("count", "-42")],
    );
    assert_eq!(count(&store), Ok(GetCountResponse { count: -42 }));
}

#[test]
fn instantiate_replaces_what_was_stored() {
    let mut store = instantiated(1, "alice");
    instantiate(&mut store, from("bob"), InstantiateMsg { count: 2 }).unwrap();
    assert_eq!(store.state, Some(State { count: 2, owner: "bob".to_string() }));
    assert_eq!(
        reset(&mut store, from("alice"), 9),
        Err(ContractError::Unauthorized)
    );
    assert!(reset(&mut store, from("bob"), 9).is_ok());
}

#[test]
fn query_after_instantiate_returns_count() {
    let store = instantiated(17, "alice");
    assert_eq!(query(&store, QueryMsg::GetCount), Ok(GetCountResponse { count: 17 }));
    assert_eq!(count(&store), Ok(GetCountResponse { count: 17 }));
}

#[test]
fn reset_by_stranger_after_instantiate_is_unauthorized() {
    let mut store = instantiated(17, "alice");
    let result = execute(&mut store, from("bob"), ExecuteMsg::Reset { count: 0 });
    assert_eq!(result, Err(ContractError::Unauthorized));
}

#[test]
fn increment_adds_one() {
    let mut store = instantiated(17, "alice");
    let response = increment(&mut store).unwrap();
    assert_carries_only(&response, &[("action", "increment")]);
    assert_eq!(store.state, Some(State { count: 18, owner: "alice".to_string() }));
}

#[test]
fn increments_from_any_sender_add_up() {
    let mut store = instantiated(-3, "alice");
    let version = store.version.clone();
    let senders = ["alice", "bob", "", "carol", "bob", "alice", "dave"];
    for sender in senders {
        let response = execute(&mut store, from(sender), ExecuteMsg::Increment).unwrap();
        assert_carries_only(&response, &[("action", "increment")]);
    }
    assert_eq!(count(&store), Ok(GetCountResponse { count: 4 }));
    assert_eq!(store.state, Some(State { count: 4, owner: "alice".to_string() }));
    assert_eq!(store.version, version);
}

#[test]
fn increment_reaches_the_largest_value() {
    let mut store = instantiated(i32::MAX - 1, "alice");
    increment(&mut store).unwrap();
    assert_eq!(count(&store), Ok(GetCountResponse { count: i32::MAX }));
}

#[test]
fn increment_from_the_smallest_value() {
    let mut store = instantiated(i32::MIN, "alice");
    increment(&mut store).unwrap();
    assert_eq!(count(&store), Ok(GetCountResponse { count: i32::MIN + 1 }));
}

#[test]
fn reset_by_owner_sets_count() {
    let mut store = instantiated(17, "alice");
    let response = reset(&mut store, from("alice"), 5).unwrap();
    assert_carries_only(&response, &[("action", "reset")]);
    assert_eq!(count(&store), Ok(GetCountResponse { count: 5 }));
    assert_eq!(store.state, Some(State { count: 5, owner: "alice".to_string() }));
}

#[test]
fn reset_by_other_changes_nothing() {
    let mut store = instantiated(17, "alice");
    let before = store.clone();
    assert_eq!(reset(&mut store, from("bob"), 5), Err(ContractError::Unauthorized));
    assert_eq!(store, before);
    assert_eq!(count(&store), Ok(GetCountResponse { count: 17 }));
}

#[test]
fn reset_compares_the_whole_address() {
    let mut store = instantiated(1, "alice");
    assert_eq!(reset(&mut store, from("alic"), 5), Err(ContractError::Unauthorized));
    assert_eq!(reset(&mut store, from("alice "), 5), Err(ContractError::Unauthorized));
    assert_eq!(reset(&mut store, from("Alice"), 5), Err(ContractError::Unauthorized));
    assert_eq!(reset(&mut store, from(""), 5), Err(ContractError::Unauthorized));
    assert_eq!(count(&store), Ok(GetCountResponse { count: 1 }));
}

#[test]
fn reset_through_execute_by_owner() {
    let mut store = instantiated(17, "alice");
    let response = execute(&mut store, from("alice"), ExecuteMsg::Reset { count: -8 }).unwrap();
    assert_carries_only(&response, &[("action", "reset")]);
    assert_eq!(query(&store, QueryMsg::GetCount), Ok(GetCountResponse { count: -8 }));
}

#[test]
fn handlers_on_empty_store_report_not_found() {
    let mut store = Store::new();
    assert_eq!(increment(&mut store), Err(ContractError::NotFound));
    assert_eq!(reset(&mut store, from("alice"), 5), Err(ContractError::NotFound));
    assert_eq!(
        execute(&mut store, from("alice"), ExecuteMsg::Increment),
        Err(ContractError::NotFound)
    );
    assert_eq!(
        execute(&mut store, from("alice"), ExecuteMsg::Reset { count: 1 }),
        Err(ContractError::NotFound)
    );
    assert_eq!(count(&store), Err(ContractError::NotFound));
    assert_eq!(query(&store, QueryMsg::GetCount), Err(ContractError::NotFound));
    assert_eq!(store, Store::new());
}

#[test]
fn execute_keeps_owner_and_version() {
    let mut store = instantiated(0, "alice");
    let version = store.version.clone();
    execute(&mut store, from("bob"), ExecuteMsg::Increment).unwrap();
    execute(&mut store, from("alice"), ExecuteMsg::Reset { count: 40 }).unwrap();
    assert!(execute(&mut store, from("bob"), ExecuteMsg::Reset { count: 41 }).is_err());
    assert_eq!(store.state, Some(State { count: 40, owner: "alice".to_string() }));
    assert_eq!(store.version, version);
}

#[test]
fn repeated_queries_agree() {
    let store = instantiated(23, "alice");
    let first = query(&store, QueryMsg::GetCount);
    let second = query(&store, QueryMsg::GetCount);
    let third = count(&store);
    assert_eq!(first, Ok(GetCountResponse { count: 23 }));
    assert_eq!(first, second);
    assert_eq!(second, third);
    let empty = Store::new();
    assert_eq!(query(&empty, QueryMsg::GetCount), query(&empty, QueryMsg::GetCount));
}

#[test]
fn counter_scenario() {
    let mut store = Store::new();
    instantiate(&mut store, from("alice"), InstantiateMsg { count: 17 }).unwrap();
    assert_eq!(query(&store, QueryMsg::GetCount), Ok(GetCountResponse { count: 17 }));

    for _ in 0..3 {
        execute(&mut store, from("bob"), ExecuteMsg::Increment).unwrap();
    }
    assert_eq!(query(&store, QueryMsg::GetCount), Ok(GetCountResponse { count: 20 }));

    let refused = execute(&mut store, from("bob"), ExecuteMsg::Reset { count: 5 });
    assert_eq!(refused, Err(ContractError::Unauthorized));
    assert_eq!(query(&store, QueryMsg::GetCount), Ok(GetCountResponse { count: 20 }));

    let granted = execute(&mut store, from("alice"), ExecuteMsg::Reset { count: 5 });
    assert!(granted.is_ok());
    assert_eq!(query(&store, QueryMsg::GetCount), Ok(GetCountResponse { count: 5 }));
}
