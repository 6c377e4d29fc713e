use crate::address::Address;
use crate::state::enums::DistributionType;
use vstd::prelude::*;

verus! {

/// Where a pool stands in its life.
#[derive(Clone, Copy, Debug, PartialEq, Eq, Structural)]
pub enum PoolPhase {
    /// Active and taking registrations.
    Open,
    /// Active, closed for registration, no share allocated yet.
    Locked,
    /// Active, closed for registration, shares being allocated and claimed.
    Distributing,
    /// Not active: only claims and reclaims go on.
    Closed,
}

/// A fund raised for one disaster, with its allocation policy and its books.
///
/// A pool first takes registrations, then is locked, and only then hands out
/// shares. `total_claimed <= total_distributed <= total_deposited` holds of the
/// books of every pool whose records were written by the operations of this
/// library.
#[derive(Clone, Debug, PartialEq, Eq)]
pub struct FundPool {
    pub pool_id: String,
    pub disaster_id: String,
    pub name: String,
    /// Who runs the pool.
    pub authority: Address,
    pub token_mint: Address,
    /// The custodial account that holds the pool's funds.
    pub token_account: Address,
    pub distribution_type: DistributionType,
    /// All value ever paid in, after fees.
    pub total_deposited: u64,
    /// The sum of all shares allocated and not taken back.
    pub total_distributed: u64,
    /// All value ever paid out.
    pub total_claimed: u64,
    /// How many beneficiaries were allocated a share.
    pub beneficiary_count: u32,
    /// The sum of the weights of all registrations.
    pub total_allocation_weight: u64,
    pub donor_count: u32,
    /// How long the locked part of a share stays locked, in seconds.
    pub time_lock_duration: Option<i64>,
    /// Hundredths of a share payable at once.
    pub distribution_percentage_immediate: u8,
    /// Hundredths of a share payable after the lock.
    pub distribution_percentage_locked: u8,
    pub eligibility_criteria: String,
    pub is_active: bool,
    pub is_distributed: bool,
    pub created_at: i64,
    pub distributed_at: Option<i64>,
    pub closed_at: Option<i64>,
    pub minimum_family_size: Option<u8>,
    pub minimum_damage_severity: Option<u8>,
    pub target_amount: Option<u64>,
    pub description: String,
    pub bump: u8,
    /// Set once, by locking; no registration is accepted afterwards.
    pub registration_locked: bool,
    pub expected_beneficiary_count: Option<u32>,
    /// How many beneficiaries have registered.
    pub registered_beneficiary_count: u32,
}

impl FundPool {
    pub const MAX_POOL_ID_LEN: usize = 50;
    pub const MAX_DISASTER_ID_LEN: usize = 50;
    pub const MAX_NAME_LEN: usize = 100;
    pub const MAX_ELIGIBILITY_LEN: usize = 500;
    pub const MAX_DESCRIPTION_LEN: usize = 500;

    /// Whether the two percentages add up to one hundred.
    pub open spec fn split_is_whole(&self) -> bool {
        self.distribution_percentage_immediate + self.distribution_percentage_locked == 100
    }

    /// The phase that the pool's flags and counters put it in.
    pub open spec fn phase_of(&self) -> PoolPhase {
        if !self.is_active {
            PoolPhase::Closed
        } else if !self.registration_locked {
            PoolPhase::Open
        } else if self.beneficiary_count == 0 {
            PoolPhase::Locked
        } else {
            PoolPhase::Distributing
        }
    }

    /// Tells the phase the pool is in.
    pub fn phase(&self) -> (phase: PoolPhase)
        ensures
            phase == self.phase_of(),
    {
        if !self.is_active {
            PoolPhase::Closed
        } else if !self.registration_locked {
            PoolPhase::Open
        } else if self.beneficiary_count == 0 {
            PoolPhase::Locked
        } else {
            PoolPhase::Distributing
        }
    }

    /// Conservation of funds: no more was paid out than was allocated, and no
    /// more is allocated than was paid in.
    pub open spec fn books_balance(&self) -> bool {
        self.total_claimed <= self.total_distributed <= self.total_deposited
    }
}

} // verus!
