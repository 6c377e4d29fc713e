use crate::address::Address;
use crate::errors::ErrorCode;
use crate::state::admin_action::AdminAction;
use crate::state::enums::AdminActionType;
use crate::state::platform_config::PlatformConfig;
use crate::text::{byte_len, fits, given_or, set_if_given};
use vstd::prelude::*;

verus! {

/// The first settings of the platform.
#[derive(Clone, Debug, PartialEq, Eq)]
pub struct InitializePlatformParams {
    pub platform_fee_percentage: u16,
    pub verification_threshold: u8,
    pub max_verifiers: u8,
    pub min_donation_amount: u64,
    pub max_donation_amount: u64,
    pub usdc_mint: Address,
    pub platform_name: String,
    pub platform_version: String,
}

/// The settings of the platform that are to change; `None` leaves a setting
/// as it is.
#[derive(Clone, Debug, PartialEq, Eq)]
pub struct UpdatePlatformConfigParams {
    pub platform_fee_percentage: Option<u16>,
    pub platform_fee_recipient: Option<Address>,
    pub verification_threshold: Option<u8>,
    pub max_verifiers: Option<u8>,
    pub min_donation_amount: Option<u64>,
    pub max_donation_amount: Option<u64>,
    pub usdc_mint: Option<Address>,
    pub is_paused: Option<bool>,
    pub sol_usd_oracle: Option<Address>,
}

/// A change of settings with what goes into the audit trail about it.
#[derive(Clone, Debug, PartialEq, Eq)]
pub struct UpdatePlatformConfigWithAuditParams {
    pub config_params: UpdatePlatformConfigParams,
    pub reason: String,
    pub metadata: String,
}

/// How much more than anyone else may be donated at once to a pool of a
/// verified organisation: ten times as much.
pub const VERIFIED_DONATION_FACTOR: u64 = 10;

/// How many pools a verified organisation may create, to begin with.
pub const DEFAULT_VERIFIED_POOL_LIMIT: u8 = 10;

/// Why setting up the platform is refused, if it is.
///
/// The fee must be at most ten percent, the threshold at least one and at
/// most the number of verifiers, the least donation positive and below the
/// largest, the two texts within their limits, and ten times the largest
/// donation within 64 bits.
pub open spec fn platform_refusal(params: InitializePlatformParams) -> Option<ErrorCode> {
    if params.platform_fee_percentage > PlatformConfig::MAX_FEE {
        Some(ErrorCode::InvalidPlatformFee)
    } else if params.verification_threshold == 0 || params.verification_threshold
        > params.max_verifiers {
        Some(ErrorCode::VerificationThresholdNotMet)
    } else if params.min_donation_amount == 0 || params.min_donation_amount
        >= params.max_donation_amount {
        Some(ErrorCode::InvalidInput)
    } else if byte_len(params.platform_name@) > PlatformConfig::MAX_PLATFORM_NAME_LEN || byte_len(
        params.platform_version@,
    ) > PlatformConfig::MAX_VERSION_LEN {
        Some(ErrorCode::StringTooLong)
    } else if params.max_donation_amount * VERIFIED_DONATION_FACTOR > u64::MAX {
        Some(ErrorCode::ArithmeticOverflow)
    } else {
        None
    }
}

/// Whether `made` is the configuration that setup writes: the settings as
/// handed in, the caller as administrator, receiver of fees and only
/// emergency contact, the given token as the only one allowed, no managers,
/// all counters at zero, not paused.
pub open spec fn is_new_config(
    made: PlatformConfig,
    params: InitializePlatformParams,
    admin: Address,
    bump: u8,
    now: i64,
) -> bool {
    &&& made.managers@ == Seq::<Address>::empty()
    &&& made.allowed_tokens@ == seq![params.usdc_mint]
    &&& made.emergency_contacts@ == seq![admin]
    &&& made == (PlatformConfig {
        admin,
        managers: made.managers,
        platform_fee_percentage: params.platform_fee_percentage,
        unverified_ngo_fee_percentage: 0,
        verified_ngo_fee_percentage: 0,
        platform_fee_recipient: admin,
        verification_threshold: params.verification_threshold,
        max_verifiers: params.max_verifiers,
        min_donation_amount: params.min_donation_amount,
        max_donation_amount: params.max_donation_amount,
        verified_ngo_max_donation: (params.max_donation_amount * VERIFIED_DONATION_FACTOR) as u64,
        verified_ngo_pool_limit: DEFAULT_VERIFIED_POOL_LIMIT,
        unverified_ngo_pool_limit: 0,
        verified_ngo_beneficiary_limit: 0,
        unverified_ngo_beneficiary_limit: 0,
        is_paused: false,
        total_disasters: 0,
        total_beneficiaries: 0,
        total_verified_beneficiaries: 0,
        total_field_workers: 0,
        total_ngos: 0,
        total_donations: 0,
        total_aid_distributed: 0,
        total_pools: 0,
        total_fees_collected: 0,
        usdc_mint: params.usdc_mint,
        sol_usd_oracle: None,
        allowed_tokens: made.allowed_tokens,
        emergency_contacts: made.emergency_contacts,
        platform_name: params.platform_name,
        platform_version: params.platform_version,
        created_at: now,
        updated_at: now,
        pending_admin: None,
        admin_transfer_initiated_at: None,
        admin_transfer_timeout: PlatformConfig::DEFAULT_TRANSFER_TIMEOUT,
        bump,
    })
}

/// Sets the platform up and returns its configuration.
pub fn handler(params: InitializePlatformParams, admin: &Address, bump: u8, now: i64) -> (res:
    Result<PlatformConfig, ErrorCode>)
    ensures
        res is Err <==> platform_refusal(params) is Some,
        res matches Err(refusal) ==> Some(refusal) == platform_refusal(params),
        res matches Ok(made) ==> is_new_config(made, params, *admin, bump, now),
        res matches Ok(made) ==> made.well_formed(),
{
    if params.platform_fee_percentage > PlatformConfig::MAX_FEE {
        return Err(ErrorCode::InvalidPlatformFee);
    }
    if params.verification_threshold == 0 || params.verification_threshold > params.max_verifiers {
        return Err(ErrorCode::VerificationThresholdNotMet);
    }
    if params.min_donation_amount == 0 || params.min_donation_amount
        >= params.max_donation_amount {
        return Err(ErrorCode::InvalidInput);
    }
    if !fits(&params.platform_name, PlatformConfig::MAX_PLATFORM_NAME_LEN) || !fits(
        &params.platform_version,
        PlatformConfig::MAX_VERSION_LEN,
    ) {
        return Err(ErrorCode::StringTooLong);
    }
    let verified_ngo_max_donation = match params.max_donation_amount.checked_mul(
        VERIFIED_DONATION_FACTOR,
    ) {
        Some(product) => product,
        None => {
            return Err(ErrorCode::ArithmeticOverflow);
        },
    };
    let mut allowed_tokens: Vec<Address> = Vec::new();
    allowed_tokens.push(params.usdc_mint);
    let mut emergency_contacts: Vec<Address> = Vec::new();
    emergency_contacts.push(*admin);
    let made = PlatformConfig {
        admin: *admin,
        managers: Vec::new(),
        platform_fee_percentage: params.platform_fee_percentage,
        unverified_ngo_fee_percentage: 0,
        verified_ngo_fee_percentage: 0,
        platform_fee_recipient: *admin,
        verification_threshold: params.verification_threshold,
        max_verifiers: params.max_verifiers,
        min_donation_amount: params.min_donation_amount,
        max_donation_amount: params.max_donation_amount,
        verified_ngo_max_donation,
        verified_ngo_pool_limit: DEFAULT_VERIFIED_POOL_LIMIT,
        unverified_ngo_pool_limit: 0,
        verified_ngo_beneficiary_limit: 0,
        unverified_ngo_beneficiary_limit: 0,
        is_paused: false,
        total_disasters: 0,
        total_beneficiaries: 0,
        total_verified_beneficiaries: 0,
        total_field_workers: 0,
        total_ngos: 0,
        total_donations: 0,
        total_aid_distributed: 0,
        total_pools: 0,
        total_fees_collected: 0,
        usdc_mint: params.usdc_mint,
        sol_usd_oracle: None,
        allowed_tokens,
        emergency_contacts,
        platform_name: params.platform_name,
        platform_version: params.platform_version,
        created_at: now,
        updated_at: now,
        pending_admin: None,
        admin_transfer_initiated_at: None,
        admin_transfer_timeout: PlatformConfig::DEFAULT_TRANSFER_TIMEOUT,
        bump,
    };
    proof {
        assert(made.allowed_tokens@ =~= seq![params.usdc_mint]);
        assert(made.emergency_contacts@ =~= seq![*admin]);
    }
    Ok(made)
}

/// Why a change of the platform's settings is refused, if it is.
///
/// The caller must be the administrator, and reason and metadata within
/// their limits. The settings are then taken one after the other, each
/// checked against the settings as the ones before it have left them: the
/// fee at most ten percent; the threshold at least one and at most the old
/// number of verifiers; the number of verifiers at least the threshold as it
/// is then; the least donation positive and below the old largest; the
/// largest donation above the least as it is then.
pub open spec fn settings_refusal(
    config: PlatformConfig,
    admin: Address,
    params: UpdatePlatformConfigWithAuditParams,
) -> Option<ErrorCode> {
    let change = params.config_params;
    if config.admin@ != admin@ {
        Some(ErrorCode::UnauthorizedAdmin)
    } else if byte_len(params.reason@) > AdminAction::MAX_REASON_LEN || byte_len(params.metadata@)
        > AdminAction::MAX_METADATA_LEN {
        Some(ErrorCode::StringTooLong)
    } else if change.platform_fee_percentage matches Some(fee) && fee > PlatformConfig::MAX_FEE {
        Some(ErrorCode::InvalidPlatformFee)
    } else if change.verification_threshold matches Some(threshold) && (threshold == 0
        || threshold > config.max_verifiers) {
        Some(ErrorCode::VerificationThresholdNotMet)
    } else if change.max_verifiers matches Some(most) && most < given_or(
        change.verification_threshold,
        config.verification_threshold,
    ) {
        Some(ErrorCode::InvalidInput)
    } else if change.min_donation_amount matches Some(least) && (least == 0 || least
        >= config.max_donation_amount) {
        Some(ErrorCode::InvalidInput)
    } else if change.max_donation_amount matches Some(most) && most <= given_or(
        change.min_donation_amount,
        config.min_donation_amount,
    ) {
        Some(ErrorCode::InvalidInput)
    } else {
        None
    }
}

/// The platform's configuration with the given settings replaced.
pub open spec fn settings_changed(
    before: PlatformConfig,
    change: UpdatePlatformConfigParams,
    now: i64,
) -> PlatformConfig {
    PlatformConfig {
        platform_fee_percentage: given_or(
            change.platform_fee_percentage,
            before.platform_fee_percentage,
        ),
        platform_fee_recipient: given_or(
            change.platform_fee_recipient,
            before.platform_fee_recipient,
        ),
        verification_threshold: given_or(
            change.verification_threshold,
            before.verification_threshold,
        ),
        max_verifiers: given_or(change.max_verifiers, before.max_verifiers),
        min_donation_amount: given_or(change.min_donation_amount, before.min_donation_amount),
        max_donation_amount: given_or(change.max_donation_amount, before.max_donation_amount),
        usdc_mint: given_or(change.usdc_mint, before.usdc_mint),
        is_paused: given_or(change.is_paused, before.is_paused),
        sol_usd_oracle: if change.sol_usd_oracle is Some {
            change.sol_usd_oracle
        } else {
            before.sol_usd_oracle
        },
        updated_at: now,
        ..before
    }
}

/// How a change of settings goes into the audit trail: as a pause or an end
/// of a pause where it says which, else as a plain change.
pub open spec fn settings_action(change: UpdatePlatformConfigParams) -> AdminActionType {
    match change.is_paused {
        Some(true) => AdminActionType::PausePlatform,
        Some(false) => AdminActionType::UnpausePlatform,
        None => AdminActionType::UpdatePlatformConfig,
    }
}

/// Changes settings of the platform, and returns the entry for the audit
/// trail, which carries the metadata handed in.
pub fn update_platform_config_handler(
    config: &mut PlatformConfig,
    admin: &Address,
    config_key: &Address,
    params: UpdatePlatformConfigWithAuditParams,
    bump: u8,
    now: i64,
) -> (res: Result<AdminAction, ErrorCode>)
    ensures
        res is Err <==> settings_refusal(*old(config), *admin, params) is Some,
        res matches Err(refusal) ==> Some(refusal) == settings_refusal(
            *old(config),
            *admin,
            params,
        ) && *final(config) == *old(config),
        res matches Ok(entry) ==> entry == (AdminAction {
            action_type: settings_action(params.config_params),
            target: *config_key,
            admin: *admin,
            reason: params.reason,
            timestamp: now,
            metadata: params.metadata,
            bump,
        }) && *final(config) == settings_changed(*old(config), params.config_params, now),
        old(config).well_formed() ==> final(config).well_formed(),
{
    if !config.admin.same_as(admin) {
        return Err(ErrorCode::UnauthorizedAdmin);
    }
    if !fits(&params.reason, AdminAction::MAX_REASON_LEN) || !fits(
        &params.metadata,
        AdminAction::MAX_METADATA_LEN,
    ) {
        return Err(ErrorCode::StringTooLong);
    }
    let change = params.config_params;
    if let Some(fee) = change.platform_fee_percentage {
        if fee > PlatformConfig::MAX_FEE {
            return Err(ErrorCode::InvalidPlatformFee);
        }
    }
    let mut threshold = config.verification_threshold;
    if let Some(given) = change.verification_threshold {
        if given == 0 || given > config.max_verifiers {
            return Err(ErrorCode::VerificationThresholdNotMet);
        }
        threshold = given;
    }
    if let Some(most) = change.max_verifiers {
        if most < threshold {
            return Err(ErrorCode::InvalidInput);
        }
    }
    let mut least = config.min_donation_amount;
    if let Some(given) = change.min_donation_amount {
        if given == 0 || given >= config.max_donation_amount {
            return Err(ErrorCode::InvalidInput);
        }
        least = given;
    }
    if let Some(most) = change.max_donation_amount {
        if most <= least {
            return Err(ErrorCode::InvalidInput);
        }
    }
    let action = match change.is_paused {
        Some(true) => AdminActionType::PausePlatform,
        Some(false) => AdminActionType::UnpausePlatform,
        None => AdminActionType::UpdatePlatformConfig,
    };
    set_if_given(&mut config.platform_fee_percentage, change.platform_fee_percentage);
    set_if_given(&mut config.platform_fee_recipient, change.platform_fee_recipient);
    set_if_given(&mut config.verification_threshold, change.verification_threshold);
    set_if_given(&mut config.max_verifiers, change.max_verifiers);
    set_if_given(&mut config.min_donation_amount, change.min_donation_amount);
    set_if_given(&mut config.max_donation_amount, change.max_donation_amount);
    set_if_given(&mut config.usdc_mint, change.usdc_mint);
    set_if_given(&mut config.is_paused, change.is_paused);
    if change.sol_usd_oracle.is_some() {
        config.sol_usd_oracle = change.sol_usd_oracle;
    }
    config.updated_at = now;
    Ok(
        AdminAction {
            action_type: action,
            target: *config_key,
            admin: *admin,
            reason: params.reason,
            timestamp: now,
            metadata: params.metadata,
            bump,
        },
    )
}

} // verus!
