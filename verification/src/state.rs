use crate::errors::ContractError;
use vstd::prelude::*;

verus! {

/// An account identity as the host hands it over: an opaque, already
/// authenticated address, carried as its raw bytes.
pub struct Addr {
    pub bytes: Vec<u8>,
}

impl View for Addr {
    type V = Seq<u8>;

    open spec fn view(&self) -> Seq<u8> {
        self.bytes@
    }
}

/// Byte-for-byte copy of a byte vector.
fn copy_bytes(v: &Vec<u8>) -> (r: Vec<u8>)
    ensures
        r@ == v@,
{
    let mut r: Vec<u8> = Vec::new();
    let mut i: usize = 0;
    while i < v.len()
        invariant
            i <= v.len(),
            r@ == v@.subrange(0, i as int),
        decreases v.len() - i,
    {
        r.push(v[i]);
        i += 1;
    }
    proof {
        assert(r@ =~= v@);
    }
    r
}

impl Addr {
    pub fn new(bytes: Vec<u8>) -> (a: Addr)
        ensures
            a@ == bytes@,
    {
        Addr { bytes }
    }

    pub fn duplicate(&self) -> (r: Addr)
        ensures
            r@ == self@,
    {
        Addr { bytes: copy_bytes(&self.bytes) }
    }

    /// Two identities are the same exactly when their bytes are.
    pub fn same_as(&self, other: &Addr) -> (r: bool)
        ensures
            r == (self@ == other@),
    {
        if self.bytes.len() != other.bytes.len() {
            return false;
        }
        let mut i: usize = 0;
        while i < self.bytes.len()
            invariant
                i <= self.bytes.len(),
                self.bytes.len() == other.bytes.len(),
                forall|j: int| 0 <= j < i ==> self@[j] == other@[j],
            decreases self.bytes.len() - i,
        {
            if self.bytes[i] != other.bytes[i] {
                return false;
            }
            i += 1;
        }
        proof {
            assert(self@ =~= other@);
        }
        true
    }
}

/// The single persisted record this contract manages.
pub struct State {
    /// Set once at initialization to the initializing caller; execute paths
    /// only read and compare it, never reassign it.
    pub owner: Addr,
    /// The counter: incremented by one, or overwritten by a reset.
    pub counter: u64,
}

/// The mathematical model of a `State` record.
pub ghost struct StateM {
    pub owner: Seq<u8>,
    pub counter: u64,
}

impl View for State {
    type V = StateM;

    open spec fn view(&self) -> StateM {
        StateM { owner: self.owner@, counter: self.counter }
    }
}

impl State {
    pub fn new(owner: Addr, counter: u64) -> (s: State)
        ensures
            s@ == (StateM { owner: owner@, counter }),
    {
        State { owner, counter }
    }

    pub fn duplicate(&self) -> (r: State)
        ensures
            r@ == self@,
    {
        State { owner: self.owner.duplicate(), counter: self.counter }
    }
}

/// The state store: a single-record persisted mapping. Its view is the
/// record's model when one is present, `None` before initialization.
///
/// The host serializes invocations, so no locking is needed; `update` still
/// reads and writes the same logical version within one call and never
/// writes when the mutation function fails.
pub struct Store {
    state: Option<State>,
}

impl View for Store {
    type V = Option<StateM>;

    closed spec fn view(&self) -> Option<StateM> {
        match self.state {
            Some(s) => Some(s@),
            None => None,
        }
    }
}

impl Store {
    /// An empty store: the contract's `Uninitialized` state.
    pub fn new() -> (s: Store)
        ensures
            s@ is None,
    {
        Store { state: None }
    }

    /// Read the record, or fail with `NotFound` when none is present.
    pub fn load(&self) -> (r: Result<State, ContractError>)
        ensures
            match self@ {
                Some(m) => r matches Ok(s) && s@ == m,
                None => r == Err::<State, ContractError>(ContractError::NotFound),
            },
    {
        match &self.state {
            Some(s) => Ok(s.duplicate()),
            None => Err(ContractError::NotFound),
        }
    }

    /// Atomic full-record replace.
    pub fn store(&mut self, new_state: State)
        ensures
            final(self)@ == Some(new_state@),
    {
        self.state = Some(new_state);
    }

    /// Read-modify-write as one scoped operation: load the record, apply the
    /// mutation function, and either store its result or abort with its
    /// error, writing nothing. The read and the write are of the same
    /// logical version, and a failing mutation never writes partially.
    pub fn update<F: FnOnce(State) -> Result<State, ContractError>>(&mut self, f: F) -> (r:
        Result<State, ContractError>)
        requires
            old(self)@ matches Some(m) ==> forall|s: State| s@ == m ==> call_requires(f, (s,)),
        ensures
            old(self)@ is None ==> final(self)@ == old(self)@ && r == Err::<
                State,
                ContractError,
            >(ContractError::NotFound),
            old(self)@ matches Some(m) ==> exists|s: State, fr: Result<State, ContractError>|
                {
                    &&& s@ == m
                    &&& #[trigger] call_ensures(f, (s,), fr)
                    &&& match fr {
                        Ok(ns) => final(self)@ == Some(ns@) && (match r {
                            Ok(out) => out@ == ns@,
                            Err(_) => false,
                        }),
                        Err(e) => final(self)@ == old(self)@ && r == Err::<
                            State,
                            ContractError,
                        >(e),
                    }
                },
    {
        match &self.state {
            None => Err(ContractError::NotFound),
            Some(cur) => {
                let input = cur.duplicate();
                match f(input) {
                    Ok(ns) => {
                        let out = ns.duplicate();
                        self.state = Some(ns);
                        Ok(out)
                    },
                    Err(e) => Err(e),
                }
            },
        }
    }
}

} // verus!
