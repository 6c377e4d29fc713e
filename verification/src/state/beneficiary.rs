use crate::address::{all_distinct, Address};
use crate::state::enums::VerificationStatus;
use crate::state::location::Location;
use vstd::prelude::*;

verus! {

/// One aid recipient, registered against one disaster.
#[derive(Clone, Debug, PartialEq, Eq)]
pub struct Beneficiary {
    /// The wallet that claims on behalf of this person.
    pub authority: Address,
    pub disaster_id: String,
    pub name: String,
    pub phone_number: String,
    pub location: Location,
    /// Members of the household, 1 to 50.
    pub family_size: u8,
    /// How badly the household was hit, 1 to 10.
    pub damage_severity: u8,
    pub verification_status: VerificationStatus,
    /// The field workers that approved so far, each at most once, oldest first.
    pub verifier_approvals: Vec<Address>,
    pub ipfs_document_hash: String,
    pub household_id: Option<String>,
    pub registered_at: i64,
    /// When the approval that met the threshold came in.
    pub verified_at: Option<i64>,
    pub nft_mint: Option<Address>,
    /// All value this person has received so far.
    pub total_received: u64,
    pub national_id: String,
    pub age: u8,
    pub gender: String,
    pub occupation: String,
    pub damage_description: String,
    pub special_needs: String,
    /// The field worker that registered this person.
    pub registered_by: Address,
    pub flagged_reason: Option<String>,
    pub flagged_by: Option<Address>,
    pub flagged_at: Option<i64>,
    pub admin_notes: Option<String>,
    pub bump: u8,
}

impl Beneficiary {
    pub const MAX_DISASTER_ID_LEN: usize = 50;
    pub const MAX_NAME_LEN: usize = 100;
    pub const MAX_PHONE_LEN: usize = 20;
    pub const MAX_IPFS_HASH_LEN: usize = 100;
    pub const MAX_HOUSEHOLD_ID_LEN: usize = 50;
    pub const MAX_NATIONAL_ID_LEN: usize = 30;
    pub const MAX_GENDER_LEN: usize = 20;
    pub const MAX_OCCUPATION_LEN: usize = 100;
    pub const MAX_DAMAGE_DESC_LEN: usize = 500;
    pub const MAX_SPECIAL_NEEDS_LEN: usize = 300;
    pub const MAX_FLAGGED_REASON_LEN: usize = 500;
    pub const MAX_ADMIN_NOTES_LEN: usize = 500;
    pub const MAX_VERIFIER_APPROVALS: usize = 5;
    pub const MIN_FAMILY_SIZE: u8 = 1;
    pub const MAX_FAMILY_SIZE: u8 = 50;
    pub const MIN_DAMAGE_SEVERITY: u8 = 1;
    pub const MAX_DAMAGE_SEVERITY: u8 = 10;
    pub const MAX_AGE: u8 = 150;

    /// What registration establishes and every later operation keeps: family
    /// size and damage severity in range, no approver counted twice, and a
    /// verification time on every verified record.
    pub open spec fn well_formed(&self) -> bool {
        &&& Self::MIN_FAMILY_SIZE <= self.family_size <= Self::MAX_FAMILY_SIZE
        &&& Self::MIN_DAMAGE_SEVERITY <= self.damage_severity <= Self::MAX_DAMAGE_SEVERITY
        &&& all_distinct(self.verifier_approvals@)
        &&& (self.verification_status is Verified ==> self.verified_at is Some)
    }

    /// Whether the record is verified.
    pub fn is_verified(&self) -> (yes: bool)
        ensures
            yes == (self.verification_status is Verified),
    {
        match self.verification_status {
            VerificationStatus::Verified => true,
            _ => false,
        }
    }
}

} // verus!
