use crate::address::Address;
use vstd::prelude::*;

verus! {

/// A beneficiary's place in a pool, with the weight it had when it signed up.
/// Written once while the pool is open for registration; the weight never
/// changes afterwards, whatever happens to the beneficiary's own record.
#[derive(Clone, Debug, PartialEq, Eq)]
pub struct PoolRegistration {
    pub pool: Address,
    pub beneficiary: Address,
    /// The beneficiary's share-of-pool factor, frozen at registration.
    pub allocation_weight: u64,
    pub registered_at: i64,
    /// Whether the share of this registration has been allocated.
    pub is_distributed: bool,
    pub bump: u8,
}

} // verus!
