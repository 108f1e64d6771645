use vstd::prelude::*;

verus! {

/// The typed failures a transition can surface. Every failure aborts the
/// current call with no state mutation.
#[derive(Clone, Copy, Debug, PartialEq, Eq)]
pub enum ContractError {
    /// No state record is present: the store was read before the contract
    /// was initialized. This is the storage layer's failure, surfaced
    /// verbatim to the host.
    NotFound,
    /// The caller is not the stored owner, so the privileged mutation is
    /// rejected and the transition is not applied.
    Unauthorized,
    /// The message lacks a field the requested operation needs (a reset
    /// without a value); rejected with no state change.
    InvalidInput,
    /// Incrementing past the largest representable counter value is a fatal
    /// arithmetic error, never a silent wrap.
    Overflow,
    /// The handler was entered with a message shape inconsistent with the
    /// entry point: a bug in message routing, never expected in correct
    /// operation.
    InternalDispatch,
}

} // verus!
