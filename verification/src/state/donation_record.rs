use crate::address::Address;
use crate::state::enums::DonationType;
use vstd::prelude::*;

verus! {

/// The receipt of one donation.
#[derive(Clone, Debug, PartialEq, Eq)]
pub struct DonationRecord {
    pub donor: Address,
    pub recipient: Address,
    pub donation_type: DonationType,
    /// What the donor gave.
    pub amount: u64,
    pub token_mint: Address,
    pub disaster_id: String,
    pub pool: Option<Address>,
    pub transaction_signature: String,
    pub timestamp: i64,
    pub is_anonymous: bool,
    pub message: String,
    /// What the platform kept.
    pub platform_fee: u64,
    /// What the recipient got: `amount - platform_fee`.
    pub net_amount: u64,
    pub donor_name: Option<String>,
    pub donor_email: Option<String>,
    pub receipt_sent: bool,
    pub bump: u8,
}

impl DonationRecord {
    pub const MAX_DISASTER_ID_LEN: usize = 50;
    pub const MAX_SIGNATURE_LEN: usize = 100;
    pub const MAX_MESSAGE_LEN: usize = 500;
    pub const MAX_DONOR_NAME_LEN: usize = 100;
    pub const MAX_DONOR_EMAIL_LEN: usize = 100;

    /// What is to move to the platform for this donation: the fee, where
    /// there is one.
    pub open spec fn fee_to_move(&self) -> Option<u64> {
        if self.platform_fee > 0 {
            Some(self.platform_fee)
        } else {
            None
        }
    }

    /// Tells what is to move to the platform: the fee, or nothing where the
    /// fee is zero. The net amount always moves to the recipient.
    pub fn fee_transfer(&self) -> (fee: Option<u64>)
        ensures
            fee == self.fee_to_move(),
    {
        if self.platform_fee > 0 {
            Some(self.platform_fee)
        } else {
            None
        }
    }
}

} // verus!
