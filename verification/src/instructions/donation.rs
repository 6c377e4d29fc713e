use crate::address::Address;
use crate::errors::ErrorCode;
use crate::instructions::fund_pool::{fee_failure, fee_on, split_fee};
use crate::state::beneficiary::Beneficiary;
use crate::state::disaster::DisasterEvent;
use crate::state::donation_record::DonationRecord;
use crate::state::enums::DonationType;
use crate::state::platform_config::PlatformConfig;
use crate::state::token_account::TokenAccountInfo;
use crate::text::{byte_len, fits, top_up, topped_up};
use vstd::prelude::*;

verus! {

/// A donation straight to a beneficiary.
#[derive(Clone, Debug, PartialEq, Eq)]
pub struct DonateDirectParams {
    pub amount: u64,
    pub message: String,
    pub is_anonymous: bool,
}

/// Why a donation straight to a beneficiary is refused, if it is.
///
/// The beneficiary must be verified and the token accounts the right ones:
/// the donor's own, one of the beneficiary's own authority and of the same
/// token, the fee recipient's of the same token. The platform must not be paused, the amount within the
/// platform's bounds and the message within its limit. Then the arithmetic
/// must work out.
pub open spec fn direct_refusal(
    beneficiary: Beneficiary,
    config: PlatformConfig,
    params: DonateDirectParams,
    donor: Address,
    donor_token_account: TokenAccountInfo,
    beneficiary_token_account: TokenAccountInfo,
    fee_recipient_account: TokenAccountInfo,
) -> Option<ErrorCode> {
    if !(beneficiary.verification_status is Verified) {
        Some(ErrorCode::BeneficiaryNotVerified)
    } else if donor_token_account.owner@ != donor@ {
        Some(ErrorCode::InvalidAccountOwner)
    } else if beneficiary_token_account.owner@ != beneficiary.authority@ {
        Some(ErrorCode::InvalidAccountOwner)
    } else if beneficiary_token_account.mint@ != donor_token_account.mint@ {
        Some(ErrorCode::InvalidTokenMint)
    } else if fee_recipient_account.owner@ != config.platform_fee_recipient@ {
        Some(ErrorCode::InvalidAccountOwner)
    } else if fee_recipient_account.mint@ != donor_token_account.mint@ {
        Some(ErrorCode::InvalidTokenMint)
    } else if config.is_paused {
        Some(ErrorCode::PlatformPaused)
    } else if params.amount < config.min_donation_amount {
        Some(ErrorCode::DonationBelowMinimum)
    } else if params.amount > config.max_donation_amount {
        Some(ErrorCode::DonationExceedsMaximum)
    } else if byte_len(params.message@) > DonationRecord::MAX_MESSAGE_LEN {
        Some(ErrorCode::StringTooLong)
    } else if fee_failure(params.amount, config.platform_fee_percentage) is Some {
        fee_failure(params.amount, config.platform_fee_percentage)
    } else if beneficiary.total_received + (params.amount - fee_on(
        params.amount,
        config.platform_fee_percentage,
    )) > u64::MAX {
        Some(ErrorCode::ArithmeticOverflow)
    } else {
        None
    }
}

/// Whether `receipt` is the record that a donation straight to a beneficiary
/// writes.
pub open spec fn is_direct_receipt(
    receipt: DonationRecord,
    config: PlatformConfig,
    params: DonateDirectParams,
    disaster_id: String,
    donor: Address,
    beneficiary_key: Address,
    token_mint: Address,
    bump: u8,
    now: i64,
) -> bool {
    let fee = fee_on(params.amount, config.platform_fee_percentage) as u64;
    &&& receipt.transaction_signature@ == Seq::<char>::empty()
    &&& receipt == (DonationRecord {
        donor,
        recipient: beneficiary_key,
        donation_type: DonationType::Direct,
        amount: params.amount,
        token_mint,
        disaster_id,
        pool: None,
        transaction_signature: receipt.transaction_signature,
        timestamp: now,
        is_anonymous: params.is_anonymous,
        message: params.message,
        platform_fee: fee,
        net_amount: (params.amount - fee) as u64,
        donor_name: None,
        donor_email: None,
        receipt_sent: false,
        bump,
    })
}

/// Takes a donation straight to a verified beneficiary into the books and
/// returns the receipt. The receipt says how much is to move to the
/// beneficiary (`net_amount`) and how much to the platform (`platform_fee`).
///
/// Refused as `direct_refusal` says, and then nothing changes. Otherwise the
/// beneficiary's total received grows by the net amount, and so do the
/// roll-up totals of the disaster and the platform.
pub fn handler(
    beneficiary: &mut Beneficiary,
    disaster: &mut DisasterEvent,
    config: &mut PlatformConfig,
    params: DonateDirectParams,
    disaster_id: String,
    donor: &Address,
    beneficiary_key: &Address,
    donor_token_account: &TokenAccountInfo,
    beneficiary_token_account: &TokenAccountInfo,
    fee_recipient_account: &TokenAccountInfo,
    bump: u8,
    now: i64,
) -> (res: Result<DonationRecord, ErrorCode>)
    ensures
        res is Err <==> direct_refusal(
            *old(beneficiary),
            *old(config),
            params,
            *donor,
            *donor_token_account,
            *beneficiary_token_account,
            *fee_recipient_account,
        ) is Some,
        res matches Err(refusal) ==> Some(refusal) == direct_refusal(
            *old(beneficiary),
            *old(config),
            params,
            *donor,
            *donor_token_account,
            *beneficiary_token_account,
            *fee_recipient_account,
        ),
        res is Err ==> *final(beneficiary) == *old(beneficiary),
        res is Err ==> *final(disaster) == *old(disaster),
        res is Err ==> *final(config) == *old(config),
        res matches Ok(receipt) ==> is_direct_receipt(
            receipt,
            *old(config),
            params,
            disaster_id,
            *donor,
            *beneficiary_key,
            donor_token_account.mint,
            bump,
            now,
        ) && receipt.platform_fee + receipt.net_amount == receipt.amount,
        res matches Ok(receipt) ==> *final(beneficiary) == (Beneficiary {
            total_received: (old(beneficiary).total_received + receipt.net_amount) as u64,
            ..*old(beneficiary)
        }),
        res matches Ok(receipt) ==> *final(disaster) == (DisasterEvent {
            total_aid_distributed: topped_up(
                old(disaster).total_aid_distributed,
                receipt.net_amount,
            ),
            updated_at: now,
            ..*old(disaster)
        }),
        res matches Ok(receipt) ==> *final(config) == (PlatformConfig {
            total_donations: topped_up(old(config).total_donations, receipt.net_amount),
            total_aid_distributed: topped_up(
                old(config).total_aid_distributed,
                receipt.net_amount,
            ),
            updated_at: now,
            ..*old(config)
        }),
{
    if !beneficiary.is_verified() {
        return Err(ErrorCode::BeneficiaryNotVerified);
    }
    if !donor_token_account.owner.same_as(donor) {
        return Err(ErrorCode::InvalidAccountOwner);
    }
    if !beneficiary_token_account.owner.same_as(&beneficiary.authority) {
        return Err(ErrorCode::InvalidAccountOwner);
    }
    if !beneficiary_token_account.mint.same_as(&donor_token_account.mint) {
        return Err(ErrorCode::InvalidTokenMint);
    }
    if !fee_recipient_account.owner.same_as(&config.platform_fee_recipient) {
        return Err(ErrorCode::InvalidAccountOwner);
    }
    if !fee_recipient_account.mint.same_as(&donor_token_account.mint) {
        return Err(ErrorCode::InvalidTokenMint);
    }
    if config.is_paused {
        return Err(ErrorCode::PlatformPaused);
    }
    if params.amount < config.min_donation_amount {
        return Err(ErrorCode::DonationBelowMinimum);
    }
    if params.amount > config.max_donation_amount {
        return Err(ErrorCode::DonationExceedsMaximum);
    }
    if !fits(&params.message, DonationRecord::MAX_MESSAGE_LEN) {
        return Err(ErrorCode::StringTooLong);
    }
    let (fee, net) = match split_fee(params.amount, config.platform_fee_percentage) {
        Ok(parts) => parts,
        Err(failure) => {
            return Err(failure);
        },
    };
    let total_received = match beneficiary.total_received.checked_add(net) {
        Some(sum) => sum,
        None => {
            return Err(ErrorCode::ArithmeticOverflow);
        },
    };
    let receipt = DonationRecord {
        donor: *donor,
        recipient: *beneficiary_key,
        donation_type: DonationType::Direct,
        amount: params.amount,
        token_mint: donor_token_account.mint,
        disaster_id,
        pool: None,
        transaction_signature: String::new(),
        timestamp: now,
        is_anonymous: params.is_anonymous,
        message: params.message,
        platform_fee: fee,
        net_amount: net,
        donor_name: None,
        donor_email: None,
        receipt_sent: false,
        bump,
    };
    beneficiary.total_received = total_received;
    disaster.total_aid_distributed = top_up(disaster.total_aid_distributed, net);
    disaster.updated_at = now;
    config.total_donations = top_up(config.total_donations, net);
    config.total_aid_distributed = top_up(config.total_aid_distributed, net);
    config.updated_at = now;
    Ok(receipt)
}

} // verus!
