use crate::key::Key;
use vstd::prelude::*;

verus! {

/// Number of asset slots of a network; slot 0 holds the primary asset.
pub const MAX_MINTS: usize = 20;

/// Lifecycle of a network; it only ever moves forward.
#[derive(Clone, Copy, Debug, PartialEq, Eq, Structural)]
pub enum NetworkState {
    Uninitialized,
    Initialized,
    Activated,
}

/// The network record: its lifecycle state and the approved assets.
#[derive(Clone, Debug)]
pub struct Network {
    pub state: NetworkState,
    pub mints: Vec<Key>,
}

/// A liquidity pool record.
#[derive(Clone, Copy, Debug)]
pub struct Pool {
    pub owner: Key,
    pub network: Key,
    pub mint: Key,
    pub treasury: Key,
    pub reserve: u64,
    pub lpt: u128,
    pub fee: u64,
    pub is_initialized: bool,
}

/// A holder's account of liquidity-provider shares in one pool.
#[derive(Clone, Copy, Debug)]
pub struct LPT {
    pub owner: Key,
    pub pool: Key,
    pub lpt: u128,
    pub is_initialized: bool,
}

/// What an operation knows of an account it was handed: its address, the
/// program that owns its storage, and whether it signed the request.
#[derive(Clone, Copy, Debug)]
pub struct AccountRef {
    pub key: Key,
    pub owner: Key,
    pub is_signer: bool,
}

impl Network {
    pub open spec fn spec_is_initialized(&self) -> bool {
        self.state != NetworkState::Uninitialized
    }

    pub open spec fn spec_is_activated(&self) -> bool {
        self.state == NetworkState::Activated
    }

    /// Whether `mint` is one of the network's asset slots.
    pub open spec fn spec_is_approved(&self, mint: Seq<u8>) -> bool {
        exists|i: int| 0 <= i < self.mints@.len() && (#[trigger] self.mints@[i])@ == mint
    }

    pub fn is_initialized(&self) -> (r: bool)
        ensures
            r == self.spec_is_initialized(),
    {
        !matches!(self.state, NetworkState::Uninitialized)
    }

    pub fn is_activated(&self) -> (r: bool)
        ensures
            r == self.spec_is_activated(),
    {
        matches!(self.state, NetworkState::Activated)
    }

    pub fn is_approved(&self, mint: &Key) -> (r: bool)
        ensures
            r == self.spec_is_approved(mint@),
    {
        let mut i: usize = 0;
        while i < self.mints.len()
            invariant
                0 <= i <= self.mints@.len(),
                forall|j: int| 0 <= j < i ==> (#[trigger] self.mints@[j])@ != mint@,
            decreases self.mints@.len() - i,
        {
            if self.mints[i] == *mint {
                return true;
            }
            i = i + 1;
        }
        false
    }
}

} // verus!
