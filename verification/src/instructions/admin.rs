use crate::address::{is_some_address, Address};
use crate::errors::ErrorCode;
use crate::state::admin_action::AdminAction;
use crate::state::enums::AdminActionType;
use crate::state::ngo::NGO;
use crate::state::platform_config::PlatformConfig;
use crate::text::{byte_len, fits};
use vstd::prelude::*;

verus! {

/// Why an organisation is verified.
#[derive(Clone, Debug, PartialEq, Eq)]
pub struct VerifyNGOParams {
    pub reason: String,
}

/// Why an organisation's verification is revoked.
#[derive(Clone, Debug, PartialEq, Eq)]
pub struct RevokeVerificationParams {
    pub reason: String,
}

/// Whether an organisation is to be active, and why.
#[derive(Clone, Debug, PartialEq, Eq)]
pub struct UpdateNGOStatusParams {
    pub is_active: bool,
    pub reason: String,
}

/// Why an organisation is blacklisted.
#[derive(Clone, Debug, PartialEq, Eq)]
pub struct BlacklistNGOParams {
    pub reason: String,
}

/// Why an organisation is taken off the blacklist.
#[derive(Clone, Debug, PartialEq, Eq)]
pub struct RemoveBlacklistParams {
    pub reason: String,
}

/// To whom the administration is to pass, and why.
#[derive(Clone, Debug, PartialEq, Eq)]
pub struct InitiateAdminTransferParams {
    pub new_admin: Address,
    pub reason: String,
}

/// Why the new administrator accepts.
#[derive(Clone, Debug, PartialEq, Eq)]
pub struct AcceptAdminTransferParams {
    pub reason: String,
}

/// Why a pending transfer is called off.
#[derive(Clone, Debug, PartialEq, Eq)]
pub struct CancelAdminTransferParams {
    pub reason: String,
}

/// Why an act of the administrator is refused before anything else is looked
/// at, if it is: the caller must be the administrator, and the reason take no
/// more than `AdminAction::MAX_REASON_LEN` bytes.
pub open spec fn admin_refusal(config: PlatformConfig, admin: Address, reason: Seq<char>) -> Option<
    ErrorCode,
> {
    if config.admin@ != admin@ {
        Some(ErrorCode::UnauthorizedAdmin)
    } else if byte_len(reason) > AdminAction::MAX_REASON_LEN {
        Some(ErrorCode::StringTooLong)
    } else {
        None
    }
}

/// Checks that the caller is the administrator and the reason short enough.
fn check_admin(config: &PlatformConfig, admin: &Address, reason: &String) -> (res: Result<
    (),
    ErrorCode,
>)
    ensures
        res == match admin_refusal(*config, *admin, reason@) {
            Some(refusal) => Err::<(), ErrorCode>(refusal),
            None => Ok(()),
        },
{
    if !config.admin.same_as(admin) {
        Err(ErrorCode::UnauthorizedAdmin)
    } else if !fits(reason, AdminAction::MAX_REASON_LEN) {
        Err(ErrorCode::StringTooLong)
    } else {
        Ok(())
    }
}

/// Why verifying an organisation is refused, if it is: as `admin_refusal`
/// says, or because the organisation is blacklisted.
pub open spec fn verify_ngo_refusal(
    ngo: NGO,
    config: PlatformConfig,
    admin: Address,
    reason: Seq<char>,
) -> Option<ErrorCode> {
    if admin_refusal(config, admin, reason) is Some {
        admin_refusal(config, admin, reason)
    } else if ngo.is_blacklisted {
        Some(ErrorCode::NGOBlacklisted)
    } else {
        None
    }
}

/// Marks an organisation as verified by the administrator, and returns the
/// entry for the audit trail.
pub fn verify_ngo_handler(
    ngo: &mut NGO,
    config: &PlatformConfig,
    admin: &Address,
    ngo_key: &Address,
    params: VerifyNGOParams,
    bump: u8,
    now: i64,
) -> (res: Result<AdminAction, ErrorCode>)
    ensures
        res is Err <==> verify_ngo_refusal(*old(ngo), *config, *admin, params.reason@) is Some,
        res matches Err(refusal) ==> Some(refusal) == verify_ngo_refusal(
            *old(ngo),
            *config,
            *admin,
            params.reason@,
        ) && *final(ngo) == *old(ngo),
        res matches Ok(entry) ==> entry.records(
            AdminActionType::VerifyNGO,
            *ngo_key,
            *admin,
            params.reason,
            now,
            bump,
        ) && *final(ngo) == (NGO {
            is_verified: true,
            verified_at: Some(now),
            verified_by: Some(*admin),
            last_activity_at: now,
            ..*old(ngo)
        }),
{
    if let Err(refusal) = check_admin(config, admin, &params.reason) {
        return Err(refusal);
    }
    if ngo.is_blacklisted {
        return Err(ErrorCode::NGOBlacklisted);
    }
    ngo.is_verified = true;
    ngo.verified_at = Some(now);
    ngo.verified_by = Some(*admin);
    ngo.last_activity_at = now;
    Ok(AdminAction::new(AdminActionType::VerifyNGO, ngo_key, admin, params.reason, now, bump))
}

/// Takes an organisation's verification away, and returns the entry for the
/// audit trail. Refused as `admin_refusal` says.
pub fn revoke_verification_handler(
    ngo: &mut NGO,
    config: &PlatformConfig,
    admin: &Address,
    ngo_key: &Address,
    params: RevokeVerificationParams,
    bump: u8,
    now: i64,
) -> (res: Result<AdminAction, ErrorCode>)
    ensures
        res is Err <==> admin_refusal(*config, *admin, params.reason@) is Some,
        res matches Err(refusal) ==> Some(refusal) == admin_refusal(
            *config,
            *admin,
            params.reason@,
        ) && *final(ngo) == *old(ngo),
        res matches Ok(entry) ==> entry.records(
            AdminActionType::RevokeVerification,
            *ngo_key,
            *admin,
            params.reason,
            now,
            bump,
        ) && *final(ngo) == (NGO {
            is_verified: false,
            verified_at: None,
            verified_by: None,
            last_activity_at: now,
            ..*old(ngo)
        }),
{
    if let Err(refusal) = check_admin(config, admin, &params.reason) {
        return Err(refusal);
    }
    ngo.is_verified = false;
    ngo.verified_at = None;
    ngo.verified_by = None;
    ngo.last_activity_at = now;
    Ok(
        AdminAction::new(
            AdminActionType::RevokeVerification,
            ngo_key,
            admin,
            params.reason,
            now,
            bump,
        ),
    )
}

/// How a change of an organisation's status goes into the audit trail.
pub open spec fn status_action(is_active: bool) -> AdminActionType {
    if is_active {
        AdminActionType::ActivateNGO
    } else {
        AdminActionType::DeactivateNGO
    }
}

/// Activates or deactivates an organisation, and returns the entry for the
/// audit trail. Refused as `admin_refusal` says.
pub fn update_ngo_status_handler(
    ngo: &mut NGO,
    config: &PlatformConfig,
    admin: &Address,
    ngo_key: &Address,
    params: UpdateNGOStatusParams,
    bump: u8,
    now: i64,
) -> (res: Result<AdminAction, ErrorCode>)
    ensures
        res is Err <==> admin_refusal(*config, *admin, params.reason@) is Some,
        res matches Err(refusal) ==> Some(refusal) == admin_refusal(
            *config,
            *admin,
            params.reason@,
        ) && *final(ngo) == *old(ngo),
        res matches Ok(entry) ==> entry.records(
            status_action(params.is_active),
            *ngo_key,
            *admin,
            params.reason,
            now,
            bump,
        ) && *final(ngo) == (NGO {
            is_active: params.is_active,
            last_activity_at: now,
            ..*old(ngo)
        }),
{
    if let Err(refusal) = check_admin(config, admin, &params.reason) {
        return Err(refusal);
    }
    ngo.is_active = params.is_active;
    ngo.last_activity_at = now;
    let action = if params.is_active {
        AdminActionType::ActivateNGO
    } else {
        AdminActionType::DeactivateNGO
    };
    Ok(AdminAction::new(action, ngo_key, admin, params.reason, now, bump))
}

/// Why blacklisting an organisation is refused, if it is: as `admin_refusal`
/// says, or because no reason is given.
pub open spec fn blacklist_refusal(config: PlatformConfig, admin: Address, reason: Seq<char>) -> Option<
    ErrorCode,
> {
    if admin_refusal(config, admin, reason) is Some {
        admin_refusal(config, admin, reason)
    } else if reason.len() == 0 {
        Some(ErrorCode::InvalidInput)
    } else {
        None
    }
}

/// Blacklists an organisation, which also deactivates it, and returns the
/// entry for the audit trail.
pub fn blacklist_ngo_handler(
    ngo: &mut NGO,
    config: &PlatformConfig,
    admin: &Address,
    ngo_key: &Address,
    params: BlacklistNGOParams,
    bump: u8,
    now: i64,
) -> (res: Result<AdminAction, ErrorCode>)
    ensures
        res is Err <==> blacklist_refusal(*config, *admin, params.reason@) is Some,
        res matches Err(refusal) ==> Some(refusal) == blacklist_refusal(
            *config,
            *admin,
            params.reason@,
        ) && *final(ngo) == *old(ngo),
        res matches Ok(entry) ==> entry.records(
            AdminActionType::BlacklistNGO,
            *ngo_key,
            *admin,
            params.reason,
            now,
            bump,
        ) && *final(ngo) == (NGO {
            is_blacklisted: true,
            blacklist_reason: params.reason,
            blacklisted_at: Some(now),
            blacklisted_by: Some(*admin),
            is_active: false,
            last_activity_at: now,
            ..*old(ngo)
        }),
{
    if let Err(refusal) = check_admin(config, admin, &params.reason) {
        return Err(refusal);
    }
    if params.reason.as_str().is_empty() {
        return Err(ErrorCode::InvalidInput);
    }
    ngo.is_blacklisted = true;
    ngo.blacklist_reason = params.reason.clone();
    ngo.blacklisted_at = Some(now);
    ngo.blacklisted_by = Some(*admin);
    ngo.is_active = false;
    ngo.last_activity_at = now;
    Ok(AdminAction::new(AdminActionType::BlacklistNGO, ngo_key, admin, params.reason, now, bump))
}

/// Takes an organisation off the blacklist, and returns the entry for the
/// audit trail. The organisation stays inactive until it is activated.
/// Refused as `admin_refusal` says.
pub fn remove_blacklist_handler(
    ngo: &mut NGO,
    config: &PlatformConfig,
    admin: &Address,
    ngo_key: &Address,
    params: RemoveBlacklistParams,
    bump: u8,
    now: i64,
) -> (res: Result<AdminAction, ErrorCode>)
    ensures
        res is Err <==> admin_refusal(*config, *admin, params.reason@) is Some,
        res matches Err(refusal) ==> Some(refusal) == admin_refusal(
            *config,
            *admin,
            params.reason@,
        ) && *final(ngo) == *old(ngo),
        res matches Ok(entry) ==> entry.records(
            AdminActionType::RemoveBlacklist,
            *ngo_key,
            *admin,
            params.reason,
            now,
            bump,
        ) && final(ngo).blacklist_reason@ == Seq::<char>::empty() && *final(ngo) == (NGO {
            is_blacklisted: false,
            blacklist_reason: final(ngo).blacklist_reason,
            blacklisted_at: None,
            blacklisted_by: None,
            last_activity_at: now,
            ..*old(ngo)
        }),
{
    if let Err(refusal) = check_admin(config, admin, &params.reason) {
        return Err(refusal);
    }
    ngo.is_blacklisted = false;
    ngo.blacklist_reason = String::new();
    ngo.blacklisted_at = None;
    ngo.blacklisted_by = None;
    ngo.last_activity_at = now;
    Ok(
        AdminAction::new(
            AdminActionType::RemoveBlacklist,
            ngo_key,
            admin,
            params.reason,
            now,
            bump,
        ),
    )
}

/// Why starting a transfer of the administration is refused, if it is: as
/// `admin_refusal` says, or because a transfer is pending already, or because
/// the new administrator is the old one.
pub open spec fn initiate_refusal(
    config: PlatformConfig,
    admin: Address,
    params: InitiateAdminTransferParams,
) -> Option<ErrorCode> {
    if admin_refusal(config, admin, params.reason@) is Some {
        admin_refusal(config, admin, params.reason@)
    } else if config.pending_admin is Some {
        Some(ErrorCode::TransferAlreadyPending)
    } else if params.new_admin@ == admin@ {
        Some(ErrorCode::InvalidInput)
    } else {
        None
    }
}

/// Starts the transfer of the administration to a new administrator, who has
/// to accept it within the platform's timeout.
pub fn initiate_admin_transfer_handler(
    config: &mut PlatformConfig,
    admin: &Address,
    params: InitiateAdminTransferParams,
    bump: u8,
    now: i64,
) -> (res: Result<AdminAction, ErrorCode>)
    ensures
        res is Err <==> initiate_refusal(*old(config), *admin, params) is Some,
        res matches Err(refusal) ==> Some(refusal) == initiate_refusal(
            *old(config),
            *admin,
            params,
        ) && *final(config) == *old(config),
        res matches Ok(entry) ==> entry.records(
            AdminActionType::InitiateAdminTransfer,
            params.new_admin,
            *admin,
            params.reason,
            now,
            bump,
        ) && *final(config) == (PlatformConfig {
            pending_admin: Some(params.new_admin),
            admin_transfer_initiated_at: Some(now),
            updated_at: now,
            ..*old(config)
        }),
{
    if let Err(refusal) = check_admin(config, admin, &params.reason) {
        return Err(refusal);
    }
    if config.pending_admin.is_some() {
        return Err(ErrorCode::TransferAlreadyPending);
    }
    if params.new_admin.same_as(admin) {
        return Err(ErrorCode::InvalidInput);
    }
    config.pending_admin = Some(params.new_admin);
    config.admin_transfer_initiated_at = Some(now);
    config.updated_at = now;
    Ok(
        AdminAction::new(
            AdminActionType::InitiateAdminTransfer,
            &params.new_admin,
            admin,
            params.reason,
            now,
            bump,
        ),
    )
}

/// Why accepting a transfer of the administration is refused, if it is.
///
/// The reason must be within its limit, a transfer be pending with the time
/// it was started, the caller be the one it is pending for, and no more time
/// have passed since it was started than the platform's timeout allows.
pub open spec fn accept_refusal(
    config: PlatformConfig,
    new_admin: Address,
    reason: Seq<char>,
    now: i64,
) -> Option<ErrorCode> {
    if byte_len(reason) > AdminAction::MAX_REASON_LEN {
        Some(ErrorCode::StringTooLong)
    } else if config.pending_admin is None {
        Some(ErrorCode::NoTransferPending)
    } else if !is_some_address(config.pending_admin, new_admin) {
        Some(ErrorCode::NotPendingAdmin)
    } else if config.admin_transfer_initiated_at is None {
        Some(ErrorCode::NoTransferPending)
    } else if now - config.admin_transfer_initiated_at->0 > i64::MAX || now
        - config.admin_transfer_initiated_at->0 < i64::MIN {
        Some(ErrorCode::ArithmeticOverflow)
    } else if now - config.admin_transfer_initiated_at->0 > config.admin_transfer_timeout {
        Some(ErrorCode::TransferExpired)
    } else {
        None
    }
}

/// Completes a transfer of the administration: the caller becomes the
/// administrator. The entry for the audit trail names the old administrator
/// as its target.
pub fn accept_admin_transfer_handler(
    config: &mut PlatformConfig,
    new_admin: &Address,
    params: AcceptAdminTransferParams,
    bump: u8,
    now: i64,
) -> (res: Result<AdminAction, ErrorCode>)
    ensures
        res is Err <==> accept_refusal(*old(config), *new_admin, params.reason@, now) is Some,
        res matches Err(refusal) ==> Some(refusal) == accept_refusal(
            *old(config),
            *new_admin,
            params.reason@,
            now,
        ) && *final(config) == *old(config),
        res matches Ok(entry) ==> entry.records(
            AdminActionType::AcceptAdminTransfer,
            old(config).admin,
            *new_admin,
            params.reason,
            now,
            bump,
        ) && *final(config) == (PlatformConfig {
            admin: *new_admin,
            pending_admin: None,
            admin_transfer_initiated_at: None,
            updated_at: now,
            ..*old(config)
        }),
{
    if !fits(&params.reason, AdminAction::MAX_REASON_LEN) {
        return Err(ErrorCode::StringTooLong);
    }
    if config.pending_admin.is_none() {
        return Err(ErrorCode::NoTransferPending);
    }
    if !new_admin.fills(&config.pending_admin) {
        return Err(ErrorCode::NotPendingAdmin);
    }
    let initiated_at = match config.admin_transfer_initiated_at {
        Some(time) => time,
        None => {
            return Err(ErrorCode::NoTransferPending);
        },
    };
    let elapsed = match now.checked_sub(initiated_at) {
        Some(elapsed) => elapsed,
        None => {
            return Err(ErrorCode::ArithmeticOverflow);
        },
    };
    if elapsed > config.admin_transfer_timeout {
        return Err(ErrorCode::TransferExpired);
    }
    let old_admin = config.admin;
    config.admin = *new_admin;
    config.pending_admin = None;
    config.admin_transfer_initiated_at = None;
    config.updated_at = now;
    Ok(
        AdminAction::new(
            AdminActionType::AcceptAdminTransfer,
            &old_admin,
            new_admin,
            params.reason,
            now,
            bump,
        ),
    )
}

/// Why calling off a transfer is refused, if it is: as `admin_refusal` says,
/// or because none is pending.
pub open spec fn cancel_refusal(config: PlatformConfig, admin: Address, reason: Seq<char>) -> Option<
    ErrorCode,
> {
    if admin_refusal(config, admin, reason) is Some {
        admin_refusal(config, admin, reason)
    } else if config.pending_admin is None {
        Some(ErrorCode::NoTransferPending)
    } else {
        None
    }
}

/// Calls off a pending transfer of the administration. The entry for the
/// audit trail names the one it was pending for as its target.
pub fn cancel_admin_transfer_handler(
    config: &mut PlatformConfig,
    admin: &Address,
    params: CancelAdminTransferParams,
    bump: u8,
    now: i64,
) -> (res: Result<AdminAction, ErrorCode>)
    ensures
        res is Err <==> cancel_refusal(*old(config), *admin, params.reason@) is Some,
        res matches Err(refusal) ==> Some(refusal) == cancel_refusal(
            *old(config),
            *admin,
            params.reason@,
        ) && *final(config) == *old(config),
        res matches Ok(entry) ==> entry.records(
            AdminActionType::CancelAdminTransfer,
            old(config).pending_admin->0,
            *admin,
            params.reason,
            now,
            bump,
        ) && *final(config) == (PlatformConfig {
            pending_admin: None,
            admin_transfer_initiated_at: None,
            updated_at: now,
            ..*old(config)
        }),
{
    if let Err(refusal) = check_admin(config, admin, &params.reason) {
        return Err(refusal);
    }
    let pending_admin = match config.pending_admin {
        Some(pending) => pending,
        None => {
            return Err(ErrorCode::NoTransferPending);
        },
    };
    config.pending_admin = None;
    config.admin_transfer_initiated_at = None;
    config.updated_at = now;
    Ok(
        AdminAction::new(
            AdminActionType::CancelAdminTransfer,
            &pending_admin,
            admin,
            params.reason,
            now,
            bump,
        ),
    )
}

} // verus!
