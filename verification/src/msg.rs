use vstd::prelude::*;

verus! {

/// The instantiate message: the initial counter value.
#[derive(Clone, Copy, Debug, PartialEq, Eq)]
pub struct InstantiateMsg {
    pub counter: u64,
}

/// The execute messages.
#[derive(Clone, Copy, Debug, PartialEq, Eq)]
pub enum ExecuteMsg {
    /// Add one to the counter; any caller may do so.
    Increment {},
    /// Overwrite the counter with `value`; only the owner may do so, and a
    /// message without a value is invalid input.
    Reset { value: Option<u64> },
}

/// The query messages.
#[derive(Clone, Copy, Debug, PartialEq, Eq)]
pub enum QueryMsg {
    /// Read the counter; no authorization, no mutation.
    GetCount {},
}

/// The answer to `GetCount`.
#[derive(Clone, Copy, Debug, PartialEq, Eq)]
pub struct GetCountResponse {
    pub count: u64,
}

/// A successful transition's response. The transitions here carry no
/// payload; the host adds its own bookkeeping around it.
#[derive(Clone, Copy, Debug, PartialEq, Eq)]
pub struct Response {}

} // verus!
