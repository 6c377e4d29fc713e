use crate::address::{holds_address, Address};
use vstd::prelude::*;

verus! {

/// The settings and roll-up counters of the whole platform.
#[derive(Clone, Debug, PartialEq, Eq)]
pub struct PlatformConfig {
    pub admin: Address,
    pub managers: Vec<Address>,
    /// The fee on donations, in hundredths of a percent.
    pub platform_fee_percentage: u16,
    pub unverified_ngo_fee_percentage: u16,
    pub verified_ngo_fee_percentage: u16,
    pub platform_fee_recipient: Address,
    /// How many distinct approvals make a beneficiary verified.
    pub verification_threshold: u8,
    /// How many approvals a beneficiary can collect at most.
    pub max_verifiers: u8,
    pub min_donation_amount: u64,
    pub max_donation_amount: u64,
    pub verified_ngo_max_donation: u64,
    pub verified_ngo_pool_limit: u8,
    pub unverified_ngo_pool_limit: u8,
    pub verified_ngo_beneficiary_limit: u16,
    pub unverified_ngo_beneficiary_limit: u16,
    pub is_paused: bool,
    pub total_disasters: u32,
    pub total_beneficiaries: u32,
    pub total_verified_beneficiaries: u32,
    pub total_field_workers: u32,
    pub total_ngos: u32,
    pub total_donations: u64,
    pub total_aid_distributed: u64,
    pub total_pools: u32,
    pub total_fees_collected: u64,
    pub usdc_mint: Address,
    pub sol_usd_oracle: Option<Address>,
    pub allowed_tokens: Vec<Address>,
    pub emergency_contacts: Vec<Address>,
    pub platform_name: String,
    pub platform_version: String,
    pub created_at: i64,
    pub updated_at: i64,
    pub pending_admin: Option<Address>,
    pub admin_transfer_initiated_at: Option<i64>,
    /// How long a pending admin transfer can be accepted, in seconds.
    pub admin_transfer_timeout: i64,
    pub bump: u8,
}

impl PlatformConfig {
    pub const MAX_MANAGERS: usize = 10;
    pub const MAX_ALLOWED_TOKENS: usize = 10;
    pub const MAX_EMERGENCY_CONTACTS: usize = 5;
    pub const MAX_PLATFORM_NAME_LEN: usize = 50;
    pub const MAX_VERSION_LEN: usize = 20;
    /// The highest fee: ten percent, in hundredths of a percent.
    pub const MAX_FEE: u16 = 1000;
    /// One week, in seconds.
    pub const DEFAULT_TRANSFER_TIMEOUT: i64 = 604_800;

    /// What setup establishes and every change of settings keeps: the fee is
    /// at most ten percent, the threshold is at least one and can be reached
    /// with the verifiers allowed, and the least donation is positive and
    /// below the largest.
    pub open spec fn well_formed(&self) -> bool {
        &&& self.platform_fee_percentage <= Self::MAX_FEE
        &&& 0 < self.verification_threshold <= self.max_verifiers
        &&& 0 < self.min_donation_amount < self.max_donation_amount
    }

    /// Whether `key` is the administrator or one of the managers.
    pub fn is_admin_or_manager(&self, key: &Address) -> (yes: bool)
        ensures
            yes == (self.admin@ == key@ || holds_address(self.managers@, *key)),
    {
        self.admin.same_as(key) || key.is_in(&self.managers)
    }

    /// Whether `key` is the administrator.
    pub fn is_admin(&self, key: &Address) -> (yes: bool)
        ensures
            yes == (self.admin@ == key@),
    {
        self.admin.same_as(key)
    }

    /// Whether `key` is one of the managers.
    pub fn is_manager(&self, key: &Address) -> (yes: bool)
        ensures
            yes == holds_address(self.managers@, *key),
    {
        key.is_in(&self.managers)
    }
}

} // verus!
