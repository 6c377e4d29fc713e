use crate::address::{holds_address, Address};
use crate::errors::ErrorCode;
use crate::program_address::{find_ngo_record_address, ngo_record_address};
use crate::state::disaster::DisasterEvent;
use crate::state::donation_record::DonationRecord;
use crate::state::enums::{DistributionType, DonationType};
use crate::state::fund_pool::FundPool;
use crate::state::ngo::{check_standing, standing_refusal, NGO};
use crate::state::platform_config::PlatformConfig;
use crate::state::token_account::TokenAccountInfo;
use crate::text::{
    byte_len, count_up, counted_up, fits, fits_if_given, given_or, option_fits, top_up, topped_up,
};
use vstd::prelude::*;

verus! {

/// The policy and description of a pool that is to be created.
#[derive(Clone, Debug, PartialEq, Eq)]
pub struct CreateFundPoolParams {
    pub name: String,
    pub distribution_type: DistributionType,
    pub time_lock_duration: Option<i64>,
    pub distribution_percentage_immediate: u8,
    pub distribution_percentage_locked: u8,
    pub eligibility_criteria: String,
    pub minimum_family_size: Option<u8>,
    pub minimum_damage_severity: Option<u8>,
    pub target_amount: Option<u64>,
    pub description: String,
}

/// A donation to a pool.
#[derive(Clone, Debug, PartialEq, Eq)]
pub struct DonateToPoolParams {
    pub amount: u64,
    pub message: String,
    pub is_anonymous: bool,
}

/// The settings of a pool that are to change; `None` leaves a setting as it
/// is.
#[derive(Clone, Debug, PartialEq, Eq)]
pub struct UpdatePoolConfigParams {
    pub is_active: Option<bool>,
    pub eligibility_criteria: Option<String>,
    pub target_amount: Option<u64>,
    pub description: Option<String>,
}

/// How many pools an organisation may have created at most before it creates
/// another: the platform's limit for verified organisations, else three.
pub open spec fn pool_limit(ngo: NGO, config: PlatformConfig) -> u32 {
    if ngo.is_verified {
        config.verified_ngo_pool_limit as u32
    } else {
        NGO::UNVERIFIED_POOL_LIMIT
    }
}

/// Why creating a pool is refused, if it is.
///
/// The disaster must be active, the organisation the caller's own, active
/// and not blacklisted, the platform not paused, and the organisation below
/// its limit of pools.
/// Every text must be within its limit, the two percentages must add up to
/// one hundred, and the token must be one the platform allows.
pub open spec fn pool_refusal(
    params: CreateFundPoolParams,
    disaster_id: Seq<char>,
    pool_id: Seq<char>,
    disaster: DisasterEvent,
    ngo: NGO,
    config: PlatformConfig,
    ngo_authority: Address,
    token_mint: Address,
) -> Option<ErrorCode> {
    if !disaster.is_active {
        Some(ErrorCode::DisasterNotActive)
    } else if ngo.authority@ != ngo_authority@ {
        Some(ErrorCode::UnauthorizedNGO)
    } else if !ngo.is_active {
        Some(ErrorCode::NGONotActive)
    } else if ngo.is_blacklisted {
        Some(ErrorCode::NGOBlacklisted)
    } else if config.is_paused {
        Some(ErrorCode::PlatformPaused)
    } else if ngo.pools_created >= pool_limit(ngo, config) {
        Some(ErrorCode::OperationNotAllowed)
    } else if byte_len(pool_id) > FundPool::MAX_POOL_ID_LEN || byte_len(disaster_id)
        > FundPool::MAX_DISASTER_ID_LEN || byte_len(params.name@) > FundPool::MAX_NAME_LEN
        || byte_len(params.eligibility_criteria@) > FundPool::MAX_ELIGIBILITY_LEN || byte_len(
        params.description@,
    ) > FundPool::MAX_DESCRIPTION_LEN {
        Some(ErrorCode::StringTooLong)
    } else if params.distribution_percentage_immediate + params.distribution_percentage_locked
        != 100 {
        Some(ErrorCode::InvalidDistributionPercentages)
    } else if !holds_address(config.allowed_tokens@, token_mint) {
        Some(ErrorCode::InvalidTokenMint)
    } else {
        None
    }
}

/// The pool that creation writes: the policy as handed in, empty books, open
/// for registration.
pub open spec fn new_pool(
    params: CreateFundPoolParams,
    disaster_id: String,
    pool_id: String,
    ngo_authority: Address,
    token_mint: Address,
    pool_token_account: Address,
    bump: u8,
    now: i64,
) -> FundPool {
    FundPool {
        pool_id,
        disaster_id,
        name: params.name,
        authority: ngo_authority,
        token_mint,
        token_account: pool_token_account,
        distribution_type: params.distribution_type,
        total_deposited: 0,
        total_distributed: 0,
        total_claimed: 0,
        beneficiary_count: 0,
        total_allocation_weight: 0,
        donor_count: 0,
        time_lock_duration: params.time_lock_duration,
        distribution_percentage_immediate: params.distribution_percentage_immediate,
        distribution_percentage_locked: params.distribution_percentage_locked,
        eligibility_criteria: params.eligibility_criteria,
        is_active: true,
        is_distributed: false,
        created_at: now,
        distributed_at: None,
        closed_at: None,
        minimum_family_size: params.minimum_family_size,
        minimum_damage_severity: params.minimum_damage_severity,
        target_amount: params.target_amount,
        description: params.description,
        bump,
        registration_locked: false,
        expected_beneficiary_count: None,
        registered_beneficiary_count: 0,
    }
}

/// Creates a pool for a disaster and returns its record.
///
/// Refused as `pool_refusal` says, and then nothing changes. Otherwise the
/// pool is `new_pool`: its percentages add up to one hundred and its books
/// are empty. The organisation's count of pools and the platform's go up.
pub fn handler(
    ngo: &mut NGO,
    config: &mut PlatformConfig,
    disaster: &DisasterEvent,
    params: CreateFundPoolParams,
    disaster_id: String,
    pool_id: String,
    ngo_authority: &Address,
    token_mint: &Address,
    pool_token_account: &Address,
    bump: u8,
    now: i64,
) -> (res: Result<FundPool, ErrorCode>)
    ensures
        res == match pool_refusal(
            params,
            disaster_id@,
            pool_id@,
            *disaster,
            *old(ngo),
            *old(config),
            *ngo_authority,
            *token_mint,
        ) {
            Some(refusal) => Err::<FundPool, ErrorCode>(refusal),
            None => Ok(
                new_pool(
                    params,
                    disaster_id,
                    pool_id,
                    *ngo_authority,
                    *token_mint,
                    *pool_token_account,
                    bump,
                    now,
                ),
            ),
        },
        res is Err ==> *final(ngo) == *old(ngo) && *final(config) == *old(config),
        res matches Ok(pool) ==> pool.split_is_whole() && pool.books_balance(),
        res is Ok ==> *final(ngo) == (NGO {
            pools_created: (old(ngo).pools_created + 1) as u32,
            last_activity_at: now,
            ..*old(ngo)
        }),
        res is Ok ==> *final(config) == (PlatformConfig {
            total_pools: counted_up(old(config).total_pools),
            updated_at: now,
            ..*old(config)
        }),
{
    if !disaster.is_active {
        return Err(ErrorCode::DisasterNotActive);
    }
    if !ngo.authority.same_as(ngo_authority) {
        return Err(ErrorCode::UnauthorizedNGO);
    }
    if !ngo.is_active {
        return Err(ErrorCode::NGONotActive);
    }
    if ngo.is_blacklisted {
        return Err(ErrorCode::NGOBlacklisted);
    }
    if config.is_paused {
        return Err(ErrorCode::PlatformPaused);
    }
    let limit: u32 = if ngo.is_verified {
        config.verified_ngo_pool_limit as u32
    } else {
        NGO::UNVERIFIED_POOL_LIMIT
    };
    if ngo.pools_created >= limit {
        return Err(ErrorCode::OperationNotAllowed);
    }
    if !fits(&pool_id, FundPool::MAX_POOL_ID_LEN) || !fits(
        &disaster_id,
        FundPool::MAX_DISASTER_ID_LEN,
    ) || !fits(&params.name, FundPool::MAX_NAME_LEN) || !fits(
        &params.eligibility_criteria,
        FundPool::MAX_ELIGIBILITY_LEN,
    ) || !fits(&params.description, FundPool::MAX_DESCRIPTION_LEN) {
        return Err(ErrorCode::StringTooLong);
    }
    if params.distribution_percentage_immediate as u16
        + params.distribution_percentage_locked as u16 != 100 {
        return Err(ErrorCode::InvalidDistributionPercentages);
    }
    if !token_mint.is_in(&config.allowed_tokens) {
        return Err(ErrorCode::InvalidTokenMint);
    }
    ngo.pools_created = ngo.pools_created + 1;
    ngo.last_activity_at = now;
    config.total_pools = count_up(config.total_pools);
    config.updated_at = now;
    Ok(
        FundPool {
            pool_id,
            disaster_id,
            name: params.name,
            authority: *ngo_authority,
            token_mint: *token_mint,
            token_account: *pool_token_account,
            distribution_type: params.distribution_type,
            total_deposited: 0,
            total_distributed: 0,
            total_claimed: 0,
            beneficiary_count: 0,
            total_allocation_weight: 0,
            donor_count: 0,
            time_lock_duration: params.time_lock_duration,
            distribution_percentage_immediate: params.distribution_percentage_immediate,
            distribution_percentage_locked: params.distribution_percentage_locked,
            eligibility_criteria: params.eligibility_criteria,
            is_active: true,
            is_distributed: false,
            created_at: now,
            distributed_at: None,
            closed_at: None,
            minimum_family_size: params.minimum_family_size,
            minimum_damage_severity: params.minimum_damage_severity,
            target_amount: params.target_amount,
            description: params.description,
            bump,
            registration_locked: false,
            expected_beneficiary_count: None,
            registered_beneficiary_count: 0,
        },
    )
}

/// The fee on a donation, rounded down: the amount times the fee rate, which
/// is in hundredths of a percent.
pub open spec fn fee_on(amount: u64, rate: u16) -> int {
    (amount * rate) / 10_000
}

/// Why the fee arithmetic of a donation fails, if it does: a fee beyond 64
/// bits gives `ArithmeticOverflow`, one larger than the donation
/// `ArithmeticUnderflow`. Neither happens with a rate of at most one hundred
/// percent.
pub open spec fn fee_failure(amount: u64, rate: u16) -> Option<ErrorCode> {
    if fee_on(amount, rate) > u64::MAX {
        Some(ErrorCode::ArithmeticOverflow)
    } else if fee_on(amount, rate) > amount {
        Some(ErrorCode::ArithmeticUnderflow)
    } else {
        None
    }
}

/// Splits a donation into the platform's fee and the net amount for the
/// recipient; the two add up to the donation exactly.
pub fn split_fee(amount: u64, rate: u16) -> (res: Result<(u64, u64), ErrorCode>)
    ensures
        res == match fee_failure(amount, rate) {
            Some(failure) => Err::<(u64, u64), ErrorCode>(failure),
            None => Ok((fee_on(amount, rate) as u64, (amount - fee_on(amount, rate)) as u64)),
        },
        rate <= 10_000 ==> res is Ok,
        res matches Ok(parts) ==> parts.0 + parts.1 == amount,
{
    assert(amount * rate <= u64::MAX * u16::MAX) by (nonlinear_arith)
        requires
            amount <= u64::MAX,
            rate <= u16::MAX,
    ;
    assert(rate <= 10_000 ==> (amount * rate) / 10_000 <= amount) by (nonlinear_arith);
    let scaled: u128 = (amount as u128) * (rate as u128);
    let fee: u128 = scaled / 10_000;
    if fee > u64::MAX as u128 {
        return Err(ErrorCode::ArithmeticOverflow);
    }
    let fee = fee as u64;
    if fee > amount {
        return Err(ErrorCode::ArithmeticUnderflow);
    }
    Ok((fee, amount - fee))
}

/// The most that may be donated at once to a pool of this organisation.
pub open spec fn donation_ceiling(ngo: NGO, config: PlatformConfig) -> u64 {
    if ngo.is_verified {
        config.verified_ngo_max_donation
    } else {
        config.max_donation_amount
    }
}

/// Why a donation to a pool is refused, if it is, given the bytes
/// `ngo_record` of the address at which the record of the pool's organisation
/// is kept.
///
/// The pool must be active and the token accounts the right ones: the pool's
/// own, the donor's of the pool's token, the fee recipient's of the same
/// token. The platform must not be paused, the organisation's record be
/// handed in and in good standing, the amount within the platform's bounds
/// and the message within its limit. Then the arithmetic must work out.
pub open spec fn donation_refusal(
    pool: FundPool,
    config: PlatformConfig,
    params: DonateToPoolParams,
    donor: Address,
    pool_token_account: TokenAccountInfo,
    donor_token_account: TokenAccountInfo,
    fee_recipient_account: TokenAccountInfo,
    ngo_record: Seq<u8>,
    ngo_key: Option<Address>,
    ngo: Option<NGO>,
) -> Option<ErrorCode> {
    if !pool.is_active {
        Some(ErrorCode::PoolNotActive)
    } else if pool_token_account.key@ != pool.token_account@ {
        Some(ErrorCode::TokenAccountMismatch)
    } else if donor_token_account.mint@ != pool.token_mint@ {
        Some(ErrorCode::InvalidTokenMint)
    } else if donor_token_account.owner@ != donor@ {
        Some(ErrorCode::InvalidAccountOwner)
    } else if fee_recipient_account.owner@ != config.platform_fee_recipient@ {
        Some(ErrorCode::InvalidAccountOwner)
    } else if fee_recipient_account.mint@ != pool.token_mint@ {
        Some(ErrorCode::InvalidTokenMint)
    } else if config.is_paused {
        Some(ErrorCode::PlatformPaused)
    } else if standing_refusal(ngo_record, ngo_key, ngo) is Some {
        standing_refusal(ngo_record, ngo_key, ngo)
    } else if params.amount < config.min_donation_amount {
        Some(ErrorCode::DonationBelowMinimum)
    } else if params.amount > donation_ceiling(ngo->0, config) {
        Some(ErrorCode::DonationExceedsMaximum)
    } else if byte_len(params.message@) > DonationRecord::MAX_MESSAGE_LEN {
        Some(ErrorCode::StringTooLong)
    } else if fee_failure(params.amount, config.platform_fee_percentage) is Some {
        fee_failure(params.amount, config.platform_fee_percentage)
    } else if pool.total_deposited + (params.amount - fee_on(
        params.amount,
        config.platform_fee_percentage,
    )) > u64::MAX {
        Some(ErrorCode::ArithmeticOverflow)
    } else if pool.donor_count == u32::MAX {
        Some(ErrorCode::ArithmeticOverflow)
    } else {
        None
    }
}

/// Whether `receipt` is the record that a donation to a pool writes.
pub open spec fn is_pool_receipt(
    receipt: DonationRecord,
    pool: FundPool,
    config: PlatformConfig,
    params: DonateToPoolParams,
    disaster_id: String,
    donor: Address,
    pool_key: Address,
    bump: u8,
    now: i64,
) -> bool {
    let fee = fee_on(params.amount, config.platform_fee_percentage) as u64;
    &&& receipt.transaction_signature@ == Seq::<char>::empty()
    &&& receipt == (DonationRecord {
        donor,
        recipient: pool_key,
        donation_type: DonationType::Pool,
        amount: params.amount,
        token_mint: pool.token_mint,
        disaster_id,
        pool: Some(pool_key),
        transaction_signature: receipt.transaction_signature,
        timestamp: now,
        is_anonymous: params.is_anonymous,
        message: params.message,
        platform_fee: fee,
        net_amount: (params.amount - fee) as u64,
        donor_name: None,
        donor_email: None,
        receipt_sent: false,
        bump,
    })
}

/// Takes a donation into a pool's books, given the address `ngo_record` at
/// which the record of the pool's organisation is kept, and returns the
/// receipt. The receipt says how much is to move to the pool's custodial
/// account (`net_amount`) and how much to the platform (`platform_fee`).
///
/// Refused as `donation_refusal` says, and then nothing changes. Otherwise the
/// pool's deposits grow by the net amount and nothing else in its allocation
/// books moves.
pub fn record_pool_donation(
    pool: &mut FundPool,
    config: &mut PlatformConfig,
    params: DonateToPoolParams,
    disaster_id: String,
    donor: &Address,
    pool_key: &Address,
    pool_token_account: &TokenAccountInfo,
    donor_token_account: &TokenAccountInfo,
    fee_recipient_account: &TokenAccountInfo,
    ngo_record: &Address,
    ngo_key: &Option<Address>,
    ngo: &Option<NGO>,
    bump: u8,
    now: i64,
) -> (res: Result<DonationRecord, ErrorCode>)
    ensures
        res is Err <==> donation_refusal(
            *old(pool),
            *old(config),
            params,
            *donor,
            *pool_token_account,
            *donor_token_account,
            *fee_recipient_account,
            ngo_record@,
            *ngo_key,
            *ngo,
        ) is Some,
        res matches Err(refusal) ==> Some(refusal) == donation_refusal(
            *old(pool),
            *old(config),
            params,
            *donor,
            *pool_token_account,
            *donor_token_account,
            *fee_recipient_account,
            ngo_record@,
            *ngo_key,
            *ngo,
        ),
        res is Err ==> *final(pool) == *old(pool) && *final(config) == *old(config),
        res matches Ok(receipt) ==> is_pool_receipt(
            receipt,
            *old(pool),
            *old(config),
            params,
            disaster_id,
            *donor,
            *pool_key,
            bump,
            now,
        ) && receipt.platform_fee + receipt.net_amount == receipt.amount,
        res matches Ok(receipt) ==> *final(pool) == (FundPool {
            total_deposited: (old(pool).total_deposited + receipt.net_amount) as u64,
            donor_count: (old(pool).donor_count + 1) as u32,
            ..*old(pool)
        }),
        res matches Ok(receipt) ==> *final(config) == (PlatformConfig {
            total_donations: topped_up(old(config).total_donations, receipt.net_amount),
            updated_at: now,
            ..*old(config)
        }),
{
    if !pool.is_active {
        return Err(ErrorCode::PoolNotActive);
    }
    if !pool_token_account.key.same_as(&pool.token_account) {
        return Err(ErrorCode::TokenAccountMismatch);
    }
    if !donor_token_account.mint.same_as(&pool.token_mint) {
        return Err(ErrorCode::InvalidTokenMint);
    }
    if !donor_token_account.owner.same_as(donor) {
        return Err(ErrorCode::InvalidAccountOwner);
    }
    if !fee_recipient_account.owner.same_as(&config.platform_fee_recipient) {
        return Err(ErrorCode::InvalidAccountOwner);
    }
    if !fee_recipient_account.mint.same_as(&pool.token_mint) {
        return Err(ErrorCode::InvalidTokenMint);
    }
    if config.is_paused {
        return Err(ErrorCode::PlatformPaused);
    }
    if let Err(refusal) = check_standing(ngo_record, ngo_key, ngo) {
        return Err(refusal);
    }
    let verified = match ngo {
        Some(record) => record.is_verified,
        None => false,
    };
    if params.amount < config.min_donation_amount {
        return Err(ErrorCode::DonationBelowMinimum);
    }
    let ceiling = if verified {
        config.verified_ngo_max_donation
    } else {
        config.max_donation_amount
    };
    if params.amount > ceiling {
        return Err(ErrorCode::DonationExceedsMaximum);
    }
    if !fits(&params.message, DonationRecord::MAX_MESSAGE_LEN) {
        return Err(ErrorCode::StringTooLong);
    }
    let (fee, net) = match split_fee(params.amount, config.platform_fee_percentage) {
        Ok(parts) => parts,
        Err(failure) => {
            return Err(failure);
        },
    };
    let total_deposited = match pool.total_deposited.checked_add(net) {
        Some(sum) => sum,
        None => {
            return Err(ErrorCode::ArithmeticOverflow);
        },
    };
    let donor_count = match pool.donor_count.checked_add(1) {
        Some(sum) => sum,
        None => {
            return Err(ErrorCode::ArithmeticOverflow);
        },
    };
    let receipt = DonationRecord {
        donor: *donor,
        recipient: *pool_key,
        donation_type: DonationType::Pool,
        amount: params.amount,
        token_mint: pool.token_mint,
        disaster_id,
        pool: Some(*pool_key),
        transaction_signature: String::new(),
        timestamp: now,
        is_anonymous: params.is_anonymous,
        message: params.message,
        platform_fee: fee,
        net_amount: net,
        donor_name: None,
        donor_email: None,
        receipt_sent: false,
        bump,
    };
    pool.total_deposited = total_deposited;
    pool.donor_count = donor_count;
    config.total_donations = top_up(config.total_donations, net);
    config.updated_at = now;
    Ok(receipt)
}

/// Why a donation to a pool is refused, if it is: with `PDADerivationFailed`
/// where no address can be derived for the record of the pool's organisation,
/// else as `donation_refusal` says for the address that is derived.
pub open spec fn pool_donation_refusal(
    pool: FundPool,
    config: PlatformConfig,
    params: DonateToPoolParams,
    donor: Address,
    program_id: Address,
    pool_token_account: TokenAccountInfo,
    donor_token_account: TokenAccountInfo,
    fee_recipient_account: TokenAccountInfo,
    ngo_key: Option<Address>,
    ngo: Option<NGO>,
) -> Option<ErrorCode> {
    match ngo_record_address(pool.authority, program_id) {
        None => Some(ErrorCode::PDADerivationFailed),
        Some(ngo_record) => donation_refusal(
            pool,
            config,
            params,
            donor,
            pool_token_account,
            donor_token_account,
            fee_recipient_account,
            ngo_record,
            ngo_key,
            ngo,
        ),
    }
}

/// Takes a donation into a pool's books and returns the receipt.
///
/// The address of the record of the pool's organisation is derived from the
/// pool's authority and `program_id`. Where none can be derived the donation
/// is refused with `PDADerivationFailed` and nothing changes; otherwise all
/// is as `record_pool_donation` says for that address.
pub fn donate_to_pool_handler(
    pool: &mut FundPool,
    config: &mut PlatformConfig,
    params: DonateToPoolParams,
    disaster_id: String,
    donor: &Address,
    pool_key: &Address,
    program_id: &Address,
    pool_token_account: &TokenAccountInfo,
    donor_token_account: &TokenAccountInfo,
    fee_recipient_account: &TokenAccountInfo,
    ngo_key: &Option<Address>,
    ngo: &Option<NGO>,
    bump: u8,
    now: i64,
) -> (res: Result<DonationRecord, ErrorCode>)
    ensures
        res is Err <==> pool_donation_refusal(
            *old(pool),
            *old(config),
            params,
            *donor,
            *program_id,
            *pool_token_account,
            *donor_token_account,
            *fee_recipient_account,
            *ngo_key,
            *ngo,
        ) is Some,
        res matches Err(refusal) ==> Some(refusal) == pool_donation_refusal(
            *old(pool),
            *old(config),
            params,
            *donor,
            *program_id,
            *pool_token_account,
            *donor_token_account,
            *fee_recipient_account,
            *ngo_key,
            *ngo,
        ),
        res is Err ==> *final(pool) == *old(pool) && *final(config) == *old(config),
        res matches Ok(receipt) ==> is_pool_receipt(
            receipt,
            *old(pool),
            *old(config),
            params,
            disaster_id,
            *donor,
            *pool_key,
            bump,
            now,
        ) && receipt.platform_fee + receipt.net_amount == receipt.amount,
        res matches Ok(receipt) ==> *final(pool) == (FundPool {
            total_deposited: (old(pool).total_deposited + receipt.net_amount) as u64,
            donor_count: (old(pool).donor_count + 1) as u32,
            ..*old(pool)
        }),
        res matches Ok(receipt) ==> *final(config) == (PlatformConfig {
            total_donations: topped_up(old(config).total_donations, receipt.net_amount),
            updated_at: now,
            ..*old(config)
        }),
{
    match find_ngo_record_address(&pool.authority, program_id) {
        None => Err(ErrorCode::PDADerivationFailed),
        Some(ngo_record) => record_pool_donation(
            pool,
            config,
            params,
            disaster_id,
            donor,
            pool_key,
            pool_token_account,
            donor_token_account,
            fee_recipient_account,
            &ngo_record,
            ngo_key,
            ngo,
            bump,
            now,
        ),
    }
}

/// Why a change of a pool's settings is refused, if it is: the caller must be
/// the pool's authority, the pool not completed, and each text that is given
/// within its limit.
pub open spec fn pool_update_refusal(
    pool: FundPool,
    authority: Address,
    params: UpdatePoolConfigParams,
) -> Option<ErrorCode> {
    if pool.authority@ != authority@ {
        Some(ErrorCode::UnauthorizedModification)
    } else if pool.is_distributed {
        Some(ErrorCode::DistributionAlreadyCompleted)
    } else if !fits_if_given(params.eligibility_criteria, FundPool::MAX_ELIGIBILITY_LEN)
        || !fits_if_given(params.description, FundPool::MAX_DESCRIPTION_LEN) {
        Some(ErrorCode::StringTooLong)
    } else {
        None
    }
}

/// A pool with the given settings replaced. Its books and its policy stay.
pub open spec fn pool_updated(before: FundPool, params: UpdatePoolConfigParams) -> FundPool {
    FundPool {
        is_active: given_or(params.is_active, before.is_active),
        eligibility_criteria: given_or(params.eligibility_criteria, before.eligibility_criteria),
        target_amount: if params.target_amount is Some {
            params.target_amount
        } else {
            before.target_amount
        },
        description: given_or(params.description, before.description),
        ..before
    }
}

/// Changes the settings of a pool that its authority may change afterwards.
pub fn update_pool_config_handler(
    pool: &mut FundPool,
    authority: &Address,
    params: UpdatePoolConfigParams,
) -> (res: Result<(), ErrorCode>)
    ensures
        res == match pool_update_refusal(*old(pool), *authority, params) {
            Some(refusal) => Err::<(), ErrorCode>(refusal),
            None => Ok(()),
        },
        res is Err ==> *final(pool) == *old(pool),
        res is Ok ==> *final(pool) == pool_updated(*old(pool), params),
{
    if !pool.authority.same_as(authority) {
        return Err(ErrorCode::UnauthorizedModification);
    }
    if pool.is_distributed {
        return Err(ErrorCode::DistributionAlreadyCompleted);
    }
    if !option_fits(&params.eligibility_criteria, FundPool::MAX_ELIGIBILITY_LEN) || !option_fits(
        &params.description,
        FundPool::MAX_DESCRIPTION_LEN,
    ) {
        return Err(ErrorCode::StringTooLong);
    }
    if let Some(is_active) = params.is_active {
        pool.is_active = is_active;
    }
    if let Some(criteria) = params.eligibility_criteria {
        pool.eligibility_criteria = criteria;
    }
    if params.target_amount.is_some() {
        pool.target_amount = params.target_amount;
    }
    if let Some(description) = params.description {
        pool.description = description;
    }
    Ok(())
}

/// Why closing a pool is refused, if it is: the caller must be the pool's
/// authority and the pool still active.
pub open spec fn close_refusal(pool: FundPool, authority: Address) -> Option<ErrorCode> {
    if pool.authority@ != authority@ {
        Some(ErrorCode::UnauthorizedModification)
    } else if !pool.is_active {
        Some(ErrorCode::PoolClosed)
    } else {
        None
    }
}

/// Closes a pool: it takes no donation, registration or allocation any more.
/// Shares that were allocated can still be claimed.
pub fn close_pool_handler(pool: &mut FundPool, authority: &Address, now: i64) -> (res: Result<
    (),
    ErrorCode,
>)
    ensures
        res == match close_refusal(*old(pool), *authority) {
            Some(refusal) => Err::<(), ErrorCode>(refusal),
            None => Ok(()),
        },
        res is Err ==> *final(pool) == *old(pool),
        res is Ok ==> *final(pool) == (FundPool {
            is_active: false,
            closed_at: Some(now),
            ..*old(pool)
        }),
{
    if !pool.authority.same_as(authority) {
        return Err(ErrorCode::UnauthorizedModification);
    }
    if !pool.is_active {
        return Err(ErrorCode::PoolClosed);
    }
    pool.is_active = false;
    pool.closed_at = Some(now);
    Ok(())
}

} // verus!
