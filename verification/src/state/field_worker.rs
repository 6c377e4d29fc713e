use crate::address::Address;
use vstd::prelude::*;

verus! {

/// A person in the field who registers, approves and flags beneficiaries.
#[derive(Clone, Debug, PartialEq, Eq)]
pub struct FieldWorker {
    pub authority: Address,
    pub name: String,
    pub organization: String,
    /// The organisation this worker acts for.
    pub ngo: Option<Address>,
    pub phone_number: String,
    pub email: String,
    pub is_active: bool,
    pub verifications_count: u32,
    pub registrations_count: u32,
    pub flags_raised: u32,
    pub assigned_districts: Vec<String>,
    pub credentials: String,
    pub registered_at: i64,
    pub activated_at: Option<i64>,
    pub deactivated_at: Option<i64>,
    pub last_activity_at: i64,
    pub registered_by: Address,
    pub notes: String,
    pub bump: u8,
}

impl FieldWorker {
    pub const MAX_NAME_LEN: usize = 100;
    pub const MAX_ORGANIZATION_LEN: usize = 100;
    pub const MAX_PHONE_LEN: usize = 20;
    pub const MAX_EMAIL_LEN: usize = 100;
    pub const MAX_DISTRICTS: usize = 10;
    pub const MAX_DISTRICT_NAME_LEN: usize = 50;
    pub const MAX_CREDENTIALS_LEN: usize = 500;
    pub const MAX_NOTES_LEN: usize = 500;
}

} // verus!
