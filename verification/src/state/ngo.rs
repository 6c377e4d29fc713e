use crate::address::Address;
use crate::errors::ErrorCode;
use vstd::prelude::*;

verus! {

/// An aid organisation: it employs field workers and runs pools.
#[derive(Clone, Debug, PartialEq, Eq)]
pub struct NGO {
    pub authority: Address,
    pub name: String,
    pub registration_number: String,
    pub email: String,
    pub phone_number: String,
    pub website: String,
    pub description: String,
    pub address: String,
    pub is_verified: bool,
    pub is_active: bool,
    pub field_workers_count: u32,
    pub beneficiaries_registered: u32,
    pub pools_created: u32,
    pub total_aid_distributed: u64,
    pub verification_documents: String,
    pub operating_districts: Vec<String>,
    pub focus_areas: Vec<String>,
    pub registered_at: i64,
    pub verified_at: Option<i64>,
    pub verified_by: Option<Address>,
    pub last_activity_at: i64,
    pub contact_person_name: String,
    pub contact_person_role: String,
    pub bank_account_info: String,
    pub tax_id: String,
    pub notes: String,
    pub is_blacklisted: bool,
    pub blacklist_reason: String,
    pub blacklisted_at: Option<i64>,
    pub blacklisted_by: Option<Address>,
    pub bump: u8,
}

impl NGO {
    pub const MAX_NAME_LEN: usize = 150;
    pub const MAX_REGISTRATION_NUMBER_LEN: usize = 50;
    pub const MAX_EMAIL_LEN: usize = 100;
    pub const MAX_PHONE_LEN: usize = 20;
    pub const MAX_WEBSITE_LEN: usize = 100;
    pub const MAX_DESCRIPTION_LEN: usize = 1000;
    pub const MAX_ADDRESS_LEN: usize = 300;
    pub const MAX_VERIFICATION_DOCS_LEN: usize = 100;
    pub const MAX_DISTRICTS: usize = 20;
    pub const MAX_DISTRICT_NAME_LEN: usize = 50;
    pub const MAX_FOCUS_AREAS: usize = 10;
    pub const MAX_FOCUS_AREA_LEN: usize = 50;
    pub const MAX_CONTACT_NAME_LEN: usize = 100;
    pub const MAX_CONTACT_ROLE_LEN: usize = 100;
    pub const MAX_BANK_INFO_LEN: usize = 500;
    pub const MAX_TAX_ID_LEN: usize = 50;
    pub const MAX_NOTES_LEN: usize = 500;
    pub const MAX_BLACKLIST_REASON_LEN: usize = 500;
    /// How many pools an organisation that is not verified may create.
    pub const UNVERIFIED_POOL_LIMIT: u32 = 3;

    /// Whether the organisation may act: active and not blacklisted.
    pub open spec fn in_good_standing(&self) -> bool {
        self.is_active && !self.is_blacklisted
    }
}

/// Why an organisation's record, handed in beside an operation, does not
/// vouch for it, if it does not.
///
/// `ngo_key` is the address of the record that was handed in, if one was, and
/// `ngo` what is stored there, if that is an organisation's record. The
/// record must be there, be the one at the address with the bytes `expected`,
/// and be of an organisation that is active and not blacklisted.
pub open spec fn standing_refusal(
    expected: Seq<u8>,
    ngo_key: Option<Address>,
    ngo: Option<NGO>,
) -> Option<ErrorCode> {
    if ngo_key is None {
        Some(ErrorCode::ResourceNotFound)
    } else if ngo_key->0@ != expected {
        Some(ErrorCode::InvalidAccountOwner)
    } else if ngo is None {
        Some(ErrorCode::AccountNotInitialized)
    } else if !ngo->0.is_active {
        Some(ErrorCode::NGONotActive)
    } else if ngo->0.is_blacklisted {
        Some(ErrorCode::NGOBlacklisted)
    } else {
        None
    }
}

/// Checks that the organisation's record handed in beside an operation is
/// the expected one and in good standing.
pub fn check_standing(expected: &Address, ngo_key: &Option<Address>, ngo: &Option<NGO>) -> (res:
    Result<(), ErrorCode>)
    ensures
        res == match standing_refusal(expected@, *ngo_key, *ngo) {
            Some(refusal) => Err::<(), ErrorCode>(refusal),
            None => Ok(()),
        },
{
    match ngo_key {
        None => {
            return Err(ErrorCode::ResourceNotFound);
        },
        Some(key) => {
            if !key.same_as(expected) {
                return Err(ErrorCode::InvalidAccountOwner);
            }
        },
    }
    match ngo {
        None => Err(ErrorCode::AccountNotInitialized),
        Some(record) => {
            if !record.is_active {
                Err(ErrorCode::NGONotActive)
            } else if record.is_blacklisted {
                Err(ErrorCode::NGOBlacklisted)
            } else {
                Ok(())
            }
        },
    }
}

} // verus!
