use crate::address::Address;
use vstd::prelude::*;

verus! {

/// Marks a phone number as taken within one disaster.
#[derive(Clone, Debug, PartialEq, Eq)]
pub struct PhoneRegistry {
    pub disaster_id: String,
    pub phone_number: String,
    pub beneficiary: Address,
    pub registered_at: i64,
    pub bump: u8,
}

impl PhoneRegistry {
    pub const MAX_DISASTER_ID_LEN: usize = 50;
    pub const MAX_PHONE_LEN: usize = 20;
}

/// Marks a national identity number as taken within one disaster.
#[derive(Clone, Debug, PartialEq, Eq)]
pub struct NationalIdRegistry {
    pub disaster_id: String,
    pub national_id: String,
    pub beneficiary: Address,
    pub registered_at: i64,
    pub bump: u8,
}

impl NationalIdRegistry {
    pub const MAX_DISASTER_ID_LEN: usize = 50;
    pub const MAX_NATIONAL_ID_LEN: usize = 50;
}

} // verus!
