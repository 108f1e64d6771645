use crate::contract::{spec_execute, spec_instantiate, spec_query};
use crate::errors::ContractError;
use crate::msg::{ExecuteMsg, InstantiateMsg};
use crate::state::StateM;
use vstd::prelude::*;

verus! {

/// After initialization with caller `a` and initial value `v`, the stored
/// owner is `a` and `GetCount` answers exactly `v`.
pub proof fn initialize_then_query(a: Seq<u8>, msg: InstantiateMsg)
    ensures
        spec_instantiate(a, msg).owner == a,
        spec_query(Some(spec_instantiate(a, msg))) == Ok::<u64, ContractError>(msg.counter),
{
}

/// On any initialized state whose counter is below `u64::MAX`, increment by
/// any caller raises the counter by exactly one and leaves the owner
/// unchanged. (At `u64::MAX` the transition fails with `Overflow` instead of
/// wrapping: see `increment_at_max_fails`.)
pub proof fn increment_adds_one(m: StateM, caller: Seq<u8>)
    requires
        m.counter < u64::MAX,
    ensures
        spec_execute(Some(m), caller, ExecuteMsg::Increment {  }) == Ok::<StateM, ContractError>(
            (StateM { owner: m.owner, counter: (m.counter + 1) as u64 }),
        ),
{
}

/// At the largest representable counter, increment fails with `Overflow`
/// for every caller; the failing transition writes nothing (the `execute`
/// contract ties every error to an unchanged store).
pub proof fn increment_at_max_fails(m: StateM, caller: Seq<u8>)
    requires
        m.counter == u64::MAX,
    ensures
        spec_execute(Some(m), caller, ExecuteMsg::Increment {  }) == Err::<StateM, ContractError>(
            ContractError::Overflow,
        ),
{
}

/// Reset with a value, called by the owner, sets the counter to exactly
/// that value and leaves the owner unchanged.
pub proof fn reset_by_owner(m: StateM, v: u64)
    ensures
        spec_execute(Some(m), m.owner, ExecuteMsg::Reset { value: Some(v) }) == Ok::<
            StateM,
            ContractError,
        >((StateM { owner: m.owner, counter: v })),
{
}

/// Reset with a value, called by anyone but the owner, fails with
/// `Unauthorized`; the failing transition writes nothing (the `execute`
/// contract ties every error to an unchanged store).
pub proof fn reset_by_other_rejected(m: StateM, caller: Seq<u8>, v: u64)
    requires
        caller != m.owner,
    ensures
        spec_execute(Some(m), caller, ExecuteMsg::Reset { value: Some(v) }) == Err::<
            StateM,
            ContractError,
        >(ContractError::Unauthorized),
{
}

/// Reset without a value fails with `InvalidInput` regardless of the caller
/// and of the state, initialized or not; the failing transition writes
/// nothing (the `execute` contract ties every error to an unchanged store).
pub proof fn reset_without_value_rejected(s: Option<StateM>, caller: Seq<u8>)
    ensures
        spec_execute(s, caller, ExecuteMsg::Reset { value: None }) == Err::<StateM, ContractError>(
            ContractError::InvalidInput,
        ),
{
}

/// Before initialization no record is present, so a query fails with
/// `NotFound`. A query can mutate nothing in any case: `query` takes the
/// store by shared reference.
pub proof fn query_before_initialize_fails()
    ensures
        spec_query(None) == Err::<u64, ContractError>(ContractError::NotFound),
{
}

/// Queries are idempotent: the answer is a function of the stored record
/// alone, so on equal states — in particular on one state queried twice with
/// no execute between — the answers are equal. (`query` takes the store by
/// shared reference, so a query cannot change the state either.)
pub proof fn query_idempotent(s1: Option<StateM>, s2: Option<StateM>)
    requires
        s1 == s2,
    ensures
        spec_query(s1) == spec_query(s2),
{
}

/// The owner is immutable after initialization: every execute transition
/// that succeeds leaves it exactly as it was, whatever the message and
/// whoever the caller.
pub proof fn execute_preserves_owner(m: StateM, caller: Seq<u8>, msg: ExecuteMsg)
    ensures
        spec_execute(Some(m), caller, msg) matches Ok(m2) ==> m2.owner == m.owner,
{
}

/// Initialization is the sole transition out of the uninitialized state:
/// executing against a store with no record never succeeds.
pub proof fn execute_requires_initialized(caller: Seq<u8>, msg: ExecuteMsg)
    ensures
        spec_execute(None, caller, msg) is Err,
{
}

} // verus!
