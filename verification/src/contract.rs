use crate::errors::ContractError;
use crate::msg::{ExecuteMsg, GetCountResponse, InstantiateMsg, QueryMsg, Response};
use crate::state::{Addr, State, StateM, Store};
use vstd::prelude::*;

verus! {

/// The record `initialize` creates: the caller becomes the owner and the
/// counter takes the message's initial value.
pub open spec fn spec_instantiate(caller: Seq<u8>, msg: InstantiateMsg) -> StateM {
    StateM { owner: caller, counter: msg.counter }
}

/// The increment transition on the modeled store: one more than the current
/// counter, the owner untouched; a missing record or a counter at the
/// largest representable value is a failure.
pub open spec fn spec_increment(s: Option<StateM>) -> Result<StateM, ContractError> {
    match s {
        None => Err(ContractError::NotFound),
        Some(st) => if st.counter == u64::MAX {
            Err(ContractError::Overflow)
        } else {
            Ok(StateM { owner: st.owner, counter: (st.counter + 1) as u64 })
        },
    }
}

/// The reset transition on the modeled store: a message without a value is
/// invalid input whoever calls; otherwise a missing record fails, a caller
/// other than the owner is unauthorized, and the owner overwrites the
/// counter exactly.
pub open spec fn spec_reset(s: Option<StateM>, caller: Seq<u8>, value: Option<u64>) -> Result<
    StateM,
    ContractError,
> {
    match value {
        None => Err(ContractError::InvalidInput),
        Some(v) => match s {
            None => Err(ContractError::NotFound),
            Some(st) => if caller != st.owner {
                Err(ContractError::Unauthorized)
            } else {
                Ok(StateM { owner: st.owner, counter: v })
            },
        },
    }
}

/// What `execute` does to the modeled store, per message.
pub open spec fn spec_execute(s: Option<StateM>, caller: Seq<u8>, msg: ExecuteMsg) -> Result<
    StateM,
    ContractError,
> {
    match msg {
        ExecuteMsg::Increment {  } => spec_increment(s),
        ExecuteMsg::Reset { value } => spec_reset(s, caller, value),
    }
}

/// What `query` answers: the stored counter, or `NotFound` before
/// initialization.
pub open spec fn spec_query(s: Option<StateM>) -> Result<u64, ContractError> {
    match s {
        None => Err(ContractError::NotFound),
        Some(st) => Ok(st.counter),
    }
}

/// Create the contract's state: the caller becomes the owner
/// unconditionally and the counter takes the message's value. The host
/// calls this exactly once, at deployment.
pub fn instantiate(store: &mut Store, caller: &Addr, msg: InstantiateMsg) -> (r: Result<
    Response,
    ContractError,
>)
    ensures
        final(store)@ == Some(spec_instantiate(caller@, msg)),
        r is Ok,
{
    store.store(State::new(caller.duplicate(), msg.counter));
    Ok(Response {  })
}

/// Dispatch an execute message to its handler. On success the store holds
/// exactly the transitioned record; on failure it is unchanged.
pub fn execute(store: &mut Store, caller: &Addr, msg: ExecuteMsg) -> (r: Result<
    Response,
    ContractError,
>)
    ensures
        match spec_execute(old(store)@, caller@, msg) {
            Ok(m2) => final(store)@ == Some(m2) && r is Ok,
            Err(e) => final(store)@ == old(store)@ && r == Err::<Response, ContractError>(e),
        },
{
    match msg {
        ExecuteMsg::Increment {  } => increment(store, msg),
        ExecuteMsg::Reset { .. } => reset(store, caller, msg),
    }
}

/// Add one to the counter; any caller may. A counter at the largest
/// representable value fails with `Overflow` rather than wrapping. Entered
/// with any other message shape, it fails with `InternalDispatch` and
/// touches nothing.
pub fn increment(store: &mut Store, msg: ExecuteMsg) -> (r: Result<Response, ContractError>)
    ensures
        msg is Increment ==> match spec_increment(old(store)@) {
            Ok(m2) => final(store)@ == Some(m2) && r is Ok,
            Err(e) => final(store)@ == old(store)@ && r == Err::<Response, ContractError>(e),
        },
        !(msg is Increment) ==> final(store)@ == old(store)@ && r == Err::<
            Response,
            ContractError,
        >(ContractError::InternalDispatch),
{
    match msg {
        ExecuteMsg::Increment {  } => {
            let res = store.update(
                |st: State| -> (fr: Result<State, ContractError>)
                    ensures
                        (match fr {
                            Ok(ns) => st@.counter < u64::MAX && ns@ == (StateM {
                                owner: st@.owner,
                                counter: (st@.counter + 1) as u64,
                            }),
                            Err(e) => st@.counter == u64::MAX && e == ContractError::Overflow,
                        })
                    {
                        if st.counter == u64::MAX {
                            Err(ContractError::Overflow)
                        } else {
                            Ok(State::new(st.owner, st.counter + 1))
                        }
                    },
            );
            match res {
                Ok(_) => Ok(Response {  }),
                Err(e) => Err(e),
            }
        },
        ExecuteMsg::Reset { .. } => Err(ContractError::InternalDispatch),
    }
}

/// Overwrite the counter with the message's value. A message without a
/// value is rejected as invalid input whoever calls; a caller other than
/// the owner is rejected as unauthorized; the owner never changes. Entered
/// with any other message shape, it fails with `InternalDispatch` and
/// touches nothing.
pub fn reset(store: &mut Store, caller: &Addr, msg: ExecuteMsg) -> (r: Result<
    Response,
    ContractError,
>)
    ensures
        msg matches ExecuteMsg::Reset { value } ==> match spec_reset(old(store)@, caller@, value) {
            Ok(m2) => final(store)@ == Some(m2) && r is Ok,
            Err(e) => final(store)@ == old(store)@ && r == Err::<Response, ContractError>(e),
        },
        msg is Increment ==> final(store)@ == old(store)@ && r == Err::<Response, ContractError>(
            ContractError::InternalDispatch,
        ),
{
    match msg {
        ExecuteMsg::Reset { value } => {
            match value {
                None => Err(ContractError::InvalidInput),
                Some(v) => {
                    let res = store.update(
                        |st: State| -> (fr: Result<State, ContractError>)
                            ensures
                                (match fr {
                                    Ok(ns) => caller@ == st@.owner && ns@ == (StateM {
                                        owner: st@.owner,
                                        counter: v,
                                    }),
                                    Err(e) => caller@ != st@.owner && e
                                        == ContractError::Unauthorized,
                                })
                            {
                                if caller.same_as(&st.owner) {
                                    Ok(State::new(st.owner, v))
                                } else {
                                    Err(ContractError::Unauthorized)
                                }
                            },
                    );
                    match res {
                        Ok(_) => Ok(Response {  }),
                        Err(e) => Err(e),
                    }
                },
            }
        },
        ExecuteMsg::Increment {  } => Err(ContractError::InternalDispatch),
    }
}

/// Dispatch a query message to its handler. Takes the store by shared
/// reference: a query can never mutate anything.
pub fn query(store: &Store, msg: QueryMsg) -> (r: Result<GetCountResponse, ContractError>)
    ensures
        match spec_query(store@) {
            Ok(c) => r == Ok::<GetCountResponse, ContractError>((GetCountResponse { count: c })),
            Err(e) => r == Err::<GetCountResponse, ContractError>(e),
        },
{
    match msg {
        QueryMsg::GetCount {  } => get_count(store, msg),
    }
}

/// Answer `GetCount` with the stored counter; fails only when no record is
/// present (the contract was never initialized).
pub fn get_count(store: &Store, msg: QueryMsg) -> (r: Result<GetCountResponse, ContractError>)
    ensures
        match spec_query(store@) {
            Ok(c) => r == Ok::<GetCountResponse, ContractError>((GetCountResponse { count: c })),
            Err(e) => r == Err::<GetCountResponse, ContractError>(e),
        },
{
    match msg {
        QueryMsg::GetCount {  } => match store.load() {
            Ok(st) => Ok(GetCountResponse { count: st.counter }),
            Err(e) => Err(e),
        },
    }
}

} // verus!
