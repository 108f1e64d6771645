use cw_counter::contract::{execute, get_count, increment, instantiate, query, reset};
use cw_counter::errors::ContractError;
use cw_counter::msg::{ExecuteMsg, GetCountResponse, InstantiateMsg, QueryMsg};
use cw_counter::state::{Addr, Store};

fn addr(name: &str) -> Addr {
    Addr::new(name.as_bytes().to_vec())
}

fn count_of(store: &Store) -> u64 {
    query(store, QueryMsg::GetCount {}).expect("query should succeed").count
}

#[test]
fn initialize_sets_owner_and_counter() {
    let mut store = Store::new();
    let r = instantiate(&mut store, &addr("alice"), InstantiateMsg { counter: 7 });
    assert!(r.is_ok());
    assert_eq!(
        query(&store, QueryMsg::GetCount {}),
        Ok(GetCountResponse { count: 7 })
    );
    let state = store.load().expect("state must exist after initialize");
    assert_eq!(state.owner.bytes, b"alice".to_vec());
    assert_eq!(state.counter, 7);
}

#[test]
fn initialize_with_zero() {
    let mut store = Store::new();
    instantiate(&mut store, &addr("alice"), InstantiateMsg { counter: 0 }).unwrap();
    assert_eq!(count_of(&store), 0);
}

#[test]
fn increment_adds_one_for_any_caller() {
    let mut store = Store::new();
    instantiate(&mut store, &addr("alice"), InstantiateMsg { counter: 41 }).unwrap();
    let r = execute(&mut store, &addr("stranger"), ExecuteMsg::Increment {});
    assert!(r.is_ok());
    assert_eq!(count_of(&store), 42);
    let state = store.load().unwrap();
    assert_eq!(state.owner.bytes, b"alice".to_vec());
}

#[test]
fn increment_at_max_fails_with_overflow() {
    let mut store = Store::new();
    instantiate(
        &mut store,
        &addr("alice"),
        InstantiateMsg { counter: u64::MAX },
    )
    .unwrap();
    let r = execute(&mut store, &addr("alice"), ExecuteMsg::Increment {});
    assert_eq!(r, Err(ContractError::Overflow));
    assert_eq!(count_of(&store), u64::MAX);
}

#[test]
fn reset_by_owner_sets_value_exactly() {
    let mut store = Store::new();
    instantiate(&mut store, &addr("alice"), InstantiateMsg { counter: 5 }).unwrap();
    let r = execute(
        &mut store,
        &addr("alice"),
        ExecuteMsg::Reset { value: Some(99) },
    );
    assert!(r.is_ok());
    assert_eq!(count_of(&store), 99);
    let state = store.load().unwrap();
    assert_eq!(state.owner.bytes, b"alice".to_vec());
}

#[test]
fn reset_by_non_owner_is_unauthorized() {
    let mut store = Store::new();
    instantiate(&mut store, &addr("alice"), InstantiateMsg { counter: 5 }).unwrap();
    let r = execute(
        &mut store,
        &addr("mallory"),
        ExecuteMsg::Reset { value: Some(99) },
    );
    assert_eq!(r, Err(ContractError::Unauthorized));
    assert_eq!(count_of(&store), 5);
}

#[test]
fn reset_without_value_is_invalid_input_for_owner() {
    let mut store = Store::new();
    instantiate(&mut store, &addr("alice"), InstantiateMsg { counter: 5 }).unwrap();
    let r = execute(&mut store, &addr("alice"), ExecuteMsg::Reset { value: None });
    assert_eq!(r, Err(ContractError::InvalidInput));
    assert_eq!(count_of(&store), 5);
}

#[test]
fn reset_without_value_is_invalid_input_for_stranger() {
    let mut store = Store::new();
    instantiate(&mut store, &addr("alice"), InstantiateMsg { counter: 5 }).unwrap();
    let r = execute(
        &mut store,
        &addr("mallory"),
        ExecuteMsg::Reset { value: None },
    );
    assert_eq!(r, Err(ContractError::InvalidInput));
    assert_eq!(count_of(&store), 5);
}

#[test]
fn query_before_initialize_fails() {
    let store = Store::new();
    assert_eq!(
        query(&store, QueryMsg::GetCount {}),
        Err(ContractError::NotFound)
    );
}

#[test]
fn execute_before_initialize_fails() {
    let mut store = Store::new();
    let r = execute(&mut store, &addr("alice"), ExecuteMsg::Increment {});
    assert_eq!(r, Err(ContractError::NotFound));
    let r = execute(
        &mut store,
        &addr("alice"),
        ExecuteMsg::Reset { value: Some(1) },
    );
    assert_eq!(r, Err(ContractError::NotFound));
    assert_eq!(
        query(&store, QueryMsg::GetCount {}),
        Err(ContractError::NotFound)
    );
}

#[test]
fn query_is_idempotent() {
    let mut store = Store::new();
    instantiate(&mut store, &addr("alice"), InstantiateMsg { counter: 12 }).unwrap();
    let first = query(&store, QueryMsg::GetCount {});
    let second = query(&store, QueryMsg::GetCount {});
    let third = query(&store, QueryMsg::GetCount {});
    assert_eq!(first, second);
    assert_eq!(second, third);
    assert_eq!(first, Ok(GetCountResponse { count: 12 }));
}

#[test]
fn get_count_answers_like_query() {
    let mut store = Store::new();
    instantiate(&mut store, &addr("alice"), InstantiateMsg { counter: 3 }).unwrap();
    assert_eq!(
        get_count(&store, QueryMsg::GetCount {}),
        Ok(GetCountResponse { count: 3 })
    );
}

#[test]
fn increment_rejects_foreign_message_shape() {
    let mut store = Store::new();
    instantiate(&mut store, &addr("alice"), InstantiateMsg { counter: 5 }).unwrap();
    let r = increment(&mut store, ExecuteMsg::Reset { value: Some(1) });
    assert_eq!(r, Err(ContractError::InternalDispatch));
    assert_eq!(count_of(&store), 5);
}

#[test]
fn reset_rejects_foreign_message_shape() {
    let mut store = Store::new();
    instantiate(&mut store, &addr("alice"), InstantiateMsg { counter: 5 }).unwrap();
    let r = reset(&mut store, &addr("alice"), ExecuteMsg::Increment {});
    assert_eq!(r, Err(ContractError::InternalDispatch));
    assert_eq!(count_of(&store), 5);
}

#[test]
fn full_lifecycle_scenario() {
    let mut store = Store::new();
    let owner = addr("alice");
    let other = addr("bob");
    instantiate(&mut store, &owner, InstantiateMsg { counter: 0 }).unwrap();
    for _ in 0..3 {
        execute(&mut store, &other, ExecuteMsg::Increment {}).unwrap();
    }
    assert_eq!(count_of(&store), 3);
    execute(&mut store, &owner, ExecuteMsg::Reset { value: Some(10) }).unwrap();
    assert_eq!(count_of(&store), 10);
    let r = execute(&mut store, &other, ExecuteMsg::Reset { value: Some(10) });
    assert_eq!(r, Err(ContractError::Unauthorized));
    assert_eq!(count_of(&store), 10);
}
