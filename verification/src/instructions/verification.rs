use crate::address::{holds_address, Address};
use crate::errors::ErrorCode;
use crate::state::beneficiary::Beneficiary;
use crate::state::disaster::DisasterEvent;
use crate::state::enums::VerificationStatus;
use crate::state::field_worker::FieldWorker;
use crate::state::platform_config::PlatformConfig;
use crate::text::{byte_len, count_up, counted_up, text_len};
use vstd::prelude::*;

verus! {

/// Why a beneficiary is flagged.
#[derive(Clone, Debug, PartialEq, Eq)]
pub struct FlagBeneficiaryParams {
    pub reason: String,
}

/// How an administrator settles a flag.
#[derive(Clone, Debug, PartialEq, Eq)]
pub struct ReviewFlaggedBeneficiaryParams {
    /// Whether the beneficiary goes back to pending; otherwise it is rejected.
    pub approve: bool,
    /// Notes to keep on the record.
    pub notes: Option<String>,
}

/// Why a field worker's approval of a beneficiary is refused, if it is.
///
/// The checks come in this order: the worker's record must be the
/// approver's own and active, the platform not paused, the beneficiary
/// neither verified, rejected nor flagged, the approver not among the
/// approvers yet, and room left for one more approver.
pub open spec fn approval_refusal(
    beneficiary: Beneficiary,
    field_worker: FieldWorker,
    config: PlatformConfig,
    approver: Address,
) -> Option<ErrorCode> {
    if field_worker.authority@ != approver@ {
        Some(ErrorCode::UnauthorizedFieldWorker)
    } else if !field_worker.is_active {
        Some(ErrorCode::FieldWorkerNotActive)
    } else if config.is_paused {
        Some(ErrorCode::PlatformPaused)
    } else if beneficiary.verification_status is Verified {
        Some(ErrorCode::AlreadyVerified)
    } else if beneficiary.verification_status is Rejected {
        Some(ErrorCode::CannotVerifyRejected)
    } else if beneficiary.verification_status is Flagged {
        Some(ErrorCode::BeneficiaryFlagged)
    } else if holds_address(beneficiary.verifier_approvals@, approver) {
        Some(ErrorCode::DuplicateApproval)
    } else if beneficiary.verifier_approvals@.len() >= config.max_verifiers {
        Some(ErrorCode::MaxVerifiersReached)
    } else if field_worker.verifications_count == u32::MAX {
        Some(ErrorCode::ArithmeticOverflow)
    } else {
        None
    }
}

/// Whether one more approval brings a beneficiary to the threshold: the
/// count, with the new approval in it, is the threshold or more.
pub open spec fn reaches_threshold(beneficiary: Beneficiary, config: PlatformConfig) -> bool {
    beneficiary.verifier_approvals@.len() + 1 >= config.verification_threshold
}

/// What an accepted approval makes of a beneficiary: the approver is added at
/// the end of the approvals, and where that meets the threshold the record
/// becomes verified at `now`. Nothing else changes.
pub open spec fn approval_recorded(
    before: Beneficiary,
    after: Beneficiary,
    config: PlatformConfig,
    approver: Address,
    now: i64,
) -> bool {
    let reached = reaches_threshold(before, config);
    &&& after.verifier_approvals@ == before.verifier_approvals@.push(approver)
    &&& after == (Beneficiary {
        verifier_approvals: after.verifier_approvals,
        verification_status: if reached {
            VerificationStatus::Verified
        } else {
            before.verification_status
        },
        verified_at: if reached {
            Some(now)
        } else {
            before.verified_at
        },
        ..before
    })
}

/// Records one field worker's approval of a beneficiary.
///
/// The approval is refused as `approval_refusal` says, and then no record
/// changes. Otherwise the approver joins the approvals and the worker's own
/// count goes up; and if the threshold is met by this very approval, the
/// beneficiary becomes verified and the verified-counters of the disaster and
/// of the platform go up by one.
pub fn handler(
    beneficiary: &mut Beneficiary,
    disaster: &mut DisasterEvent,
    field_worker: &mut FieldWorker,
    config: &mut PlatformConfig,
    field_worker_authority: &Address,
    now: i64,
) -> (res: Result<(), ErrorCode>)
    ensures
        res == match approval_refusal(
            *old(beneficiary),
            *old(field_worker),
            *old(config),
            *field_worker_authority,
        ) {
            Some(refusal) => Err::<(), ErrorCode>(refusal),
            None => Ok(()),
        },
        res is Err ==> *final(beneficiary) == *old(beneficiary) && *final(disaster) == *old(
            disaster,
        ) && *final(field_worker) == *old(field_worker) && *final(config) == *old(config),
        res is Ok ==> approval_recorded(
            *old(beneficiary),
            *final(beneficiary),
            *old(config),
            *field_worker_authority,
            now,
        ),
        res is Ok ==> *final(field_worker) == (FieldWorker {
            verifications_count: (old(field_worker).verifications_count + 1) as u32,
            last_activity_at: now,
            ..*old(field_worker)
        }),
        res is Ok && reaches_threshold(*old(beneficiary), *old(config)) ==> *final(disaster) == (
        DisasterEvent {
            verified_beneficiaries: counted_up(old(disaster).verified_beneficiaries),
            updated_at: now,
            ..*old(disaster)
        }) && *final(config) == (PlatformConfig {
            total_verified_beneficiaries: counted_up(old(config).total_verified_beneficiaries),
            updated_at: now,
            ..*old(config)
        }),
        res is Ok && !reaches_threshold(*old(beneficiary), *old(config)) ==> *final(disaster)
            == *old(disaster) && *final(config) == *old(config),
        old(beneficiary).well_formed() ==> final(beneficiary).well_formed(),
{
    if !field_worker.authority.same_as(field_worker_authority) {
        return Err(ErrorCode::UnauthorizedFieldWorker);
    }
    if !field_worker.is_active {
        return Err(ErrorCode::FieldWorkerNotActive);
    }
    if config.is_paused {
        return Err(ErrorCode::PlatformPaused);
    }
    match beneficiary.verification_status {
        VerificationStatus::Verified => {
            return Err(ErrorCode::AlreadyVerified);
        },
        VerificationStatus::Rejected => {
            return Err(ErrorCode::CannotVerifyRejected);
        },
        VerificationStatus::Flagged => {
            return Err(ErrorCode::BeneficiaryFlagged);
        },
        VerificationStatus::Pending => {},
    }
    if field_worker_authority.is_in(&beneficiary.verifier_approvals) {
        return Err(ErrorCode::DuplicateApproval);
    }
    let approvals_so_far: usize = beneficiary.verifier_approvals.len();
    if approvals_so_far >= config.max_verifiers as usize {
        return Err(ErrorCode::MaxVerifiersReached);
    }
    if field_worker.verifications_count == u32::MAX {
        return Err(ErrorCode::ArithmeticOverflow);
    }
    beneficiary.verifier_approvals.push(*field_worker_authority);
    if approvals_so_far + 1 >= config.verification_threshold as usize {
        beneficiary.verification_status = VerificationStatus::Verified;
        beneficiary.verified_at = Some(now);
        disaster.verified_beneficiaries = count_up(disaster.verified_beneficiaries);
        disaster.updated_at = now;
        config.total_verified_beneficiaries = count_up(config.total_verified_beneficiaries);
        config.updated_at = now;
    }
    field_worker.verifications_count = field_worker.verifications_count + 1;
    field_worker.last_activity_at = now;
    proof {
        let before = old(beneficiary).verifier_approvals@;
        let after = beneficiary.verifier_approvals@;
        if old(beneficiary).well_formed() {
            assert forall|i: int, j: int| 0 <= i < j < after.len() implies (#[trigger] after[i])@
                != (#[trigger] after[j])@ by {
                assert(before[i] == after[i]);
                if j < before.len() {
                    assert(before[j] == after[j]);
                }
            }
        }
    }
    Ok(())
}

/// Why flagging a beneficiary is refused, if it is.
///
/// The worker's record must be the caller's own and active. Only a pending
/// beneficiary, or one that is flagged already, can be flagged: a verified
/// one stays verified and a rejected one stays rejected.
/// The reason must be given and take no more than
/// `Beneficiary::MAX_FLAGGED_REASON_LEN` bytes.
pub open spec fn flag_refusal(
    beneficiary: Beneficiary,
    field_worker: FieldWorker,
    config: PlatformConfig,
    flagger: Address,
    reason: Seq<char>,
) -> Option<ErrorCode> {
    if field_worker.authority@ != flagger@ {
        Some(ErrorCode::UnauthorizedFieldWorker)
    } else if !field_worker.is_active {
        Some(ErrorCode::FieldWorkerNotActive)
    } else if config.is_paused {
        Some(ErrorCode::PlatformPaused)
    } else if beneficiary.verification_status is Verified {
        Some(ErrorCode::AlreadyVerified)
    } else if beneficiary.verification_status is Rejected {
        Some(ErrorCode::InvalidStatusTransition)
    } else if reason.len() == 0 {
        Some(ErrorCode::FlaggedReasonRequired)
    } else if byte_len(reason) > Beneficiary::MAX_FLAGGED_REASON_LEN {
        Some(ErrorCode::StringTooLong)
    } else if field_worker.flags_raised == u32::MAX {
        Some(ErrorCode::ArithmeticOverflow)
    } else {
        None
    }
}

/// Flags a beneficiary for review by an administrator.
///
/// Refused as `flag_refusal` says, and then nothing changes. Otherwise the
/// beneficiary becomes flagged, with the reason, the flagging worker and the
/// time; its approvals stay as they are. The worker's count of flags goes up.
pub fn flag_beneficiary_handler(
    beneficiary: &mut Beneficiary,
    field_worker: &mut FieldWorker,
    config: &PlatformConfig,
    field_worker_authority: &Address,
    params: FlagBeneficiaryParams,
    now: i64,
) -> (res: Result<(), ErrorCode>)
    ensures
        res == match flag_refusal(
            *old(beneficiary),
            *old(field_worker),
            *config,
            *field_worker_authority,
            params.reason@,
        ) {
            Some(refusal) => Err::<(), ErrorCode>(refusal),
            None => Ok(()),
        },
        res is Err ==> *final(beneficiary) == *old(beneficiary) && *final(field_worker) == *old(
            field_worker,
        ),
        res is Ok ==> *final(beneficiary) == (Beneficiary {
            verification_status: VerificationStatus::Flagged,
            flagged_reason: Some(params.reason),
            flagged_by: Some(*field_worker_authority),
            flagged_at: Some(now),
            ..*old(beneficiary)
        }),
        res is Ok ==> *final(field_worker) == (FieldWorker {
            flags_raised: (old(field_worker).flags_raised + 1) as u32,
            last_activity_at: now,
            ..*old(field_worker)
        }),
        old(beneficiary).well_formed() ==> final(beneficiary).well_formed(),
{
    if !field_worker.authority.same_as(field_worker_authority) {
        return Err(ErrorCode::UnauthorizedFieldWorker);
    }
    if !field_worker.is_active {
        return Err(ErrorCode::FieldWorkerNotActive);
    }
    if config.is_paused {
        return Err(ErrorCode::PlatformPaused);
    }
    match beneficiary.verification_status {
        VerificationStatus::Verified => {
            return Err(ErrorCode::AlreadyVerified);
        },
        VerificationStatus::Rejected => {
            return Err(ErrorCode::InvalidStatusTransition);
        },
        _ => {},
    }
    if params.reason.as_str().is_empty() {
        return Err(ErrorCode::FlaggedReasonRequired);
    }
    if text_len(&params.reason) > Beneficiary::MAX_FLAGGED_REASON_LEN {
        return Err(ErrorCode::StringTooLong);
    }
    if field_worker.flags_raised == u32::MAX {
        return Err(ErrorCode::ArithmeticOverflow);
    }
    beneficiary.verification_status = VerificationStatus::Flagged;
    beneficiary.flagged_reason = Some(params.reason);
    beneficiary.flagged_by = Some(*field_worker_authority);
    beneficiary.flagged_at = Some(now);
    field_worker.flags_raised = field_worker.flags_raised + 1;
    field_worker.last_activity_at = now;
    Ok(())
}

/// Why an administrator's review of a beneficiary is refused, if it is: the
/// beneficiary must be flagged, and the caller must be the administrator.
pub open spec fn review_refusal(
    beneficiary: Beneficiary,
    config: PlatformConfig,
    admin: Address,
) -> Option<ErrorCode> {
    if !(beneficiary.verification_status is Flagged) {
        Some(ErrorCode::InvalidStatusTransition)
    } else if config.admin@ != admin@ {
        Some(ErrorCode::UnauthorizedAdmin)
    } else {
        None
    }
}

/// What a review makes of a flagged beneficiary. Approved, it is pending
/// again with its flag cleared, and the approvals it had collected before
/// still count. Not approved, it is rejected for good and keeps its flag.
/// Notes, where given, replace the notes on the record.
pub open spec fn reviewed(before: Beneficiary, approve: bool, notes: Option<String>) -> Beneficiary {
    let admin_notes = if notes is Some {
        notes
    } else {
        before.admin_notes
    };
    if approve {
        Beneficiary {
            verification_status: VerificationStatus::Pending,
            flagged_reason: None,
            flagged_by: None,
            flagged_at: None,
            admin_notes,
            ..before
        }
    } else {
        Beneficiary { verification_status: VerificationStatus::Rejected, admin_notes, ..before }
    }
}

/// Settles a flag: the administrator sends the beneficiary back to pending or
/// rejects it.
pub fn review_flagged_beneficiary_handler(
    beneficiary: &mut Beneficiary,
    disaster: &mut DisasterEvent,
    config: &PlatformConfig,
    admin: &Address,
    params: ReviewFlaggedBeneficiaryParams,
    now: i64,
) -> (res: Result<(), ErrorCode>)
    ensures
        res == match review_refusal(*old(beneficiary), *config, *admin) {
            Some(refusal) => Err::<(), ErrorCode>(refusal),
            None => Ok(()),
        },
        res is Err ==> *final(beneficiary) == *old(beneficiary) && *final(disaster) == *old(
            disaster,
        ),
        res is Ok ==> *final(beneficiary) == reviewed(
            *old(beneficiary),
            params.approve,
            params.notes,
        ),
        res is Ok ==> *final(disaster) == (DisasterEvent { updated_at: now, ..*old(disaster) }),
        old(beneficiary).well_formed() ==> final(beneficiary).well_formed(),
{
    match beneficiary.verification_status {
        VerificationStatus::Flagged => {},
        _ => {
            return Err(ErrorCode::InvalidStatusTransition);
        },
    }
    if !config.admin.same_as(admin) {
        return Err(ErrorCode::UnauthorizedAdmin);
    }
    if params.approve {
        beneficiary.verification_status = VerificationStatus::Pending;
        beneficiary.flagged_reason = None;
        beneficiary.flagged_by = None;
        beneficiary.flagged_at = None;
    } else {
        beneficiary.verification_status = VerificationStatus::Rejected;
    }
    if params.notes.is_some() {
        beneficiary.admin_notes = params.notes;
    }
    disaster.updated_at = now;
    Ok(())
}

} // verus!
