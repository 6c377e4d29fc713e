use saharasol_core::instructions::distribution::{
    batch_claim_distributions_handler, calculate_share, claim_distribution_handler,
    reclaim_expired_distribution_handler, split_share,
};
use saharasol_core::instructions::pool_registration::{
    allocation_weight, lock_pool_registration_handler, register_beneficiary_for_pool_handler,
};
use saharasol_core::instructions::verification::{
    flag_beneficiary_handler, review_flagged_beneficiary_handler, FlagBeneficiaryParams,
    ReviewFlaggedBeneficiaryParams,
};
use saharasol_core::instructions::{distribution, verification};
use saharasol_core::{
    Address, Beneficiary, DisasterEvent, DisasterType, Distribution, DistributionType, ErrorCode,
    FieldWorker, FundPool, Location, PlatformConfig, PoolPhase, PoolRegistration,
    TokenAccountInfo, VerificationStatus,
};

const DAY: i64 = 86_400;

fn addr(n: u8) -> Address {
    Address { bytes: [n; 32] }
}

fn place() -> Location {
    Location {
        country: "NP".to_string(),
        region: "Bagmati".to_string(),
        city: "Kathmandu".to_string(),
        area: String::new(),
        latitude_bits: 27.7f64.to_bits(),
        longitude_bits: 85.3f64.to_bits(),
    }
}

fn config(threshold: u8, max_verifiers: u8) -> PlatformConfig {
    PlatformConfig {
        admin: addr(1),
        managers: vec![],
        platform_fee_percentage: 250,
        unverified_ngo_fee_percentage: 0,
        verified_ngo_fee_percentage: 0,
        platform_fee_recipient: addr(1),
        verification_threshold: threshold,
        max_verifiers,
        min_donation_amount: 10,
        max_donation_amount: 1_000_000,
        verified_ngo_max_donation: 10_000_000,
        verified_ngo_pool_limit: 10,
        unverified_ngo_pool_limit: 0,
        verified_ngo_beneficiary_limit: 0,
        unverified_ngo_beneficiary_limit: 0,
        is_paused: false,
        total_disasters: 0,
        total_beneficiaries: 0,
        total_verified_beneficiaries: 0,
        total_field_workers: 0,
        total_ngos: 0,
        total_donations: 0,
        total_aid_distributed: 0,
        total_pools: 0,
        total_fees_collected: 0,
        usdc_mint: addr(9),
        sol_usd_oracle: None,
        allowed_tokens: vec![addr(9)],
        emergency_contacts: vec![addr(1)],
        platform_name: "relief".to_string(),
        platform_version: "1".to_string(),
        created_at: 0,
        updated_at: 0,
        pending_admin: None,
        admin_transfer_initiated_at: None,
        admin_transfer_timeout: 604_800,
        bump: 255,
    }
}

fn disaster() -> DisasterEvent {
    DisasterEvent {
        event_id: "quake-1".to_string(),
        name: "Quake".to_string(),
        event_type: DisasterType::Earthquake,
        declared_at: 0,
        location: place(),
        severity: 7,
        is_active: true,
        authority: addr(1),
        affected_areas: vec![],
        description: String::new(),
        estimated_affected_population: 1000,
        total_beneficiaries: 0,
        verified_beneficiaries: 0,
        total_aid_distributed: 0,
        created_at: 0,
        updated_at: 0,
        bump: 254,
    }
}

fn worker(n: u8) -> FieldWorker {
    FieldWorker {
        authority: addr(n),
        name: "worker".to_string(),
        organization: "org".to_string(),
        ngo: None,
        phone_number: String::new(),
        email: String::new(),
        is_active: true,
        verifications_count: 0,
        registrations_count: 0,
        flags_raised: 0,
        assigned_districts: vec![],
        credentials: String::new(),
        registered_at: 0,
        activated_at: Some(0),
        deactivated_at: None,
        last_activity_at: 0,
        registered_by: addr(2),
        notes: String::new(),
        bump: 253,
    }
}

fn person(n: u8, family_size: u8, damage_severity: u8, status: VerificationStatus) -> Beneficiary {
    Beneficiary {
        authority: addr(n),
        disaster_id: "quake-1".to_string(),
        name: "Asha".to_string(),
        phone_number: "123".to_string(),
        location: place(),
        family_size,
        damage_severity,
        verification_status: status,
        verifier_approvals: vec![],
        ipfs_document_hash: String::new(),
        household_id: None,
        registered_at: 0,
        verified_at: if status == VerificationStatus::Verified { Some(1) } else { None },
        nft_mint: None,
        total_received: 0,
        national_id: "id".to_string(),
        age: 30,
        gender: String::new(),
        occupation: String::new(),
        damage_description: String::new(),
        special_needs: String::new(),
        registered_by: addr(20),
        flagged_reason: None,
        flagged_by: None,
        flagged_at: None,
        admin_notes: None,
        bump: 252,
    }
}

fn pool(kind: DistributionType, immediate: u8, lock: Option<i64>) -> FundPool {
    FundPool {
        pool_id: "pool-1".to_string(),
        disaster_id: "quake-1".to_string(),
        name: "Relief".to_string(),
        authority: addr(3),
        token_mint: addr(9),
        token_account: addr(4),
        distribution_type: kind,
        total_deposited: 0,
        total_distributed: 0,
        total_claimed: 0,
        beneficiary_count: 0,
        total_allocation_weight: 0,
        donor_count: 0,
        time_lock_duration: lock,
        distribution_percentage_immediate: immediate,
        distribution_percentage_locked: 100 - immediate,
        eligibility_criteria: String::new(),
        is_active: true,
        is_distributed: false,
        created_at: 0,
        distributed_at: None,
        closed_at: None,
        minimum_family_size: None,
        minimum_damage_severity: None,
        target_amount: None,
        description: String::new(),
        bump: 251,
        registration_locked: false,
        expected_beneficiary_count: None,
        registered_beneficiary_count: 0,
    }
}

fn pool_tokens() -> TokenAccountInfo {
    TokenAccountInfo { key: addr(4), mint: addr(9), owner: addr(50) }
}

fn wallet_tokens(owner: u8) -> TokenAccountInfo {
    TokenAccountInfo { key: addr(owner + 100), mint: addr(9), owner: addr(owner) }
}

fn share(allocated: u64, immediate: u64, unlock_time: Option<i64>) -> Distribution {
    Distribution {
        beneficiary: addr(60),
        pool: addr(50),
        amount_allocated: allocated,
        amount_immediate: immediate,
        amount_locked: allocated - immediate,
        amount_claimed: 0,
        unlock_time,
        created_at: 0,
        claimed_at: None,
        locked_claimed_at: None,
        is_fully_claimed: allocated == 0,
        allocation_weight: 1,
        notes: String::new(),
        bump: 250,
        claim_deadline: Some(90 * DAY),
        is_expired: false,
        expired_at: None,
    }
}

fn approve(
    who: &mut Beneficiary,
    event: &mut DisasterEvent,
    settings: &mut PlatformConfig,
    approver: u8,
    now: i64,
) -> Result<(), ErrorCode> {
    let mut agent = worker(approver);
    verification::handler(who, event, &mut agent, settings, &addr(approver), now)
}

fn claim(
    what: &mut Distribution,
    from: &mut FundPool,
    who: &mut Beneficiary,
    now: i64,
) -> Result<u64, ErrorCode> {
    let authority = who.authority;
    let receiving = TokenAccountInfo { key: addr(99), mint: addr(9), owner: authority };
    claim_distribution_handler(
        what,
        from,
        who,
        &addr(60),
        &authority,
        &pool_tokens(),
        &receiving,
        now,
    )
}

#[test]
fn third_approval_verifies_at_threshold_three() {
    let mut who = person(10, 2, 5, VerificationStatus::Pending);
    let mut event = disaster();
    let mut settings = config(3, 5);
    assert_eq!(approve(&mut who, &mut event, &mut settings, 21, 100), Ok(()));
    assert_eq!(approve(&mut who, &mut event, &mut settings, 22, 101), Ok(()));
    assert_eq!(who.verification_status, VerificationStatus::Pending);
    assert_eq!(who.verifier_approvals.len(), 2);
    assert_eq!(who.verified_at, None);
    assert_eq!(event.verified_beneficiaries, 0);
    assert_eq!(settings.total_verified_beneficiaries, 0);
    assert_eq!(approve(&mut who, &mut event, &mut settings, 23, 102), Ok(()));
    assert_eq!(who.verification_status, VerificationStatus::Verified);
    assert_eq!(who.verified_at, Some(102));
    assert_eq!(who.verifier_approvals, vec![addr(21), addr(22), addr(23)]);
    assert_eq!(event.verified_beneficiaries, 1);
    assert_eq!(event.updated_at, 102);
    assert_eq!(settings.total_verified_beneficiaries, 1);
    assert_eq!(settings.updated_at, 102);
}

#[test]
fn repeated_approver_is_refused_and_not_counted() {
    let mut who = person(10, 2, 5, VerificationStatus::Pending);
    let mut event = disaster();
    let mut settings = config(3, 5);
    assert_eq!(approve(&mut who, &mut event, &mut settings, 21, 100), Ok(()));
    assert_eq!(approve(&mut who, &mut event, &mut settings, 22, 101), Ok(()));
    let before = who.clone();
    assert_eq!(
        approve(&mut who, &mut event, &mut settings, 21, 102),
        Err(ErrorCode::DuplicateApproval)
    );
    assert_eq!(who, before);
    assert_eq!(who.verification_status, VerificationStatus::Pending);
}

#[test]
fn approval_counts_for_the_worker() {
    let mut who = person(10, 2, 5, VerificationStatus::Pending);
    let mut event = disaster();
    let mut settings = config(3, 5);
    let mut agent = worker(21);
    agent.verifications_count = 7;
    assert_eq!(
        verification::handler(&mut who, &mut event, &mut agent, &mut settings, &addr(21), 55),
        Ok(())
    );
    assert_eq!(agent.verifications_count, 8);
    assert_eq!(agent.last_activity_at, 55);
}

#[test]
fn approval_refusals_each_have_their_code() {
    let mut event = disaster();
    let mut settings = config(3, 2);

    let mut who = person(10, 2, 5, VerificationStatus::Pending);
    let mut idle = worker(21);
    idle.is_active = false;
    assert_eq!(
        verification::handler(&mut who, &mut event, &mut idle, &mut settings, &addr(21), 1),
        Err(ErrorCode::FieldWorkerNotActive)
    );

    let mut borrowed = worker(22);
    borrowed.is_active = false;
    assert_eq!(
        verification::handler(&mut who, &mut event, &mut borrowed, &mut settings, &addr(21), 1),
        Err(ErrorCode::UnauthorizedFieldWorker)
    );

    let mut paused = config(3, 5);
    paused.is_paused = true;
    assert_eq!(approve(&mut who, &mut event, &mut paused, 21, 1), Err(ErrorCode::PlatformPaused));

    let mut verified = person(10, 2, 5, VerificationStatus::Verified);
    assert_eq!(
        approve(&mut verified, &mut event, &mut settings, 21, 1),
        Err(ErrorCode::AlreadyVerified)
    );
    let mut rejected = person(10, 2, 5, VerificationStatus::Rejected);
    assert_eq!(
        approve(&mut rejected, &mut event, &mut settings, 21, 1),
        Err(ErrorCode::CannotVerifyRejected)
    );
    let mut flagged = person(10, 2, 5, VerificationStatus::Flagged);
    assert_eq!(
        approve(&mut flagged, &mut event, &mut settings, 21, 1),
        Err(ErrorCode::BeneficiaryFlagged)
    );

    assert_eq!(approve(&mut who, &mut event, &mut settings, 21, 1), Ok(()));
    assert_eq!(approve(&mut who, &mut event, &mut settings, 22, 2), Ok(()));
    assert_eq!(
        approve(&mut who, &mut event, &mut settings, 23, 3),
        Err(ErrorCode::MaxVerifiersReached)
    );

    let mut fresh = person(11, 2, 5, VerificationStatus::Pending);
    let mut busy = worker(21);
    busy.verifications_count = u32::MAX;
    assert_eq!(
        verification::handler(&mut fresh, &mut event, &mut busy, &mut settings, &addr(21), 1),
        Err(ErrorCode::ArithmeticOverflow)
    );
    assert!(fresh.verifier_approvals.is_empty());
}

#[test]
fn verified_counters_stop_at_the_top() {
    let mut who = person(10, 2, 5, VerificationStatus::Pending);
    let mut event = disaster();
    event.verified_beneficiaries = u32::MAX;
    let mut settings = config(1, 5);
    settings.total_verified_beneficiaries = u32::MAX;
    assert_eq!(approve(&mut who, &mut event, &mut settings, 21, 9), Ok(()));
    assert_eq!(who.verification_status, VerificationStatus::Verified);
    assert_eq!(event.verified_beneficiaries, u32::MAX);
    assert_eq!(settings.total_verified_beneficiaries, u32::MAX);
}

#[test]
fn flag_freezes_and_review_returns_to_pending_with_approvals() {
    let mut who = person(10, 2, 5, VerificationStatus::Pending);
    let mut event = disaster();
    let mut settings = config(3, 5);
    assert_eq!(approve(&mut who, &mut event, &mut settings, 21, 1), Ok(()));
    let mut agent = worker(22);
    let reason = FlagBeneficiaryParams { reason: "papers do not match".to_string() };
    assert_eq!(
        flag_beneficiary_handler(&mut who, &mut agent, &settings, &addr(22), reason, 5),
        Ok(())
    );
    assert_eq!(who.verification_status, VerificationStatus::Flagged);
    assert_eq!(who.flagged_reason, Some("papers do not match".to_string()));
    assert_eq!(who.flagged_by, Some(addr(22)));
    assert_eq!(who.flagged_at, Some(5));
    assert_eq!(agent.flags_raised, 1);
    assert_eq!(
        approve(&mut who, &mut event, &mut settings, 23, 6),
        Err(ErrorCode::BeneficiaryFlagged)
    );
    let verdict = ReviewFlaggedBeneficiaryParams { approve: true, notes: Some("checked".to_string()) };
    assert_eq!(
        review_flagged_beneficiary_handler(&mut who, &mut event, &settings, &addr(1), verdict, 7),
        Ok(())
    );
    assert_eq!(who.verification_status, VerificationStatus::Pending);
    assert_eq!(who.flagged_reason, None);
    assert_eq!(who.flagged_by, None);
    assert_eq!(who.flagged_at, None);
    assert_eq!(who.admin_notes, Some("checked".to_string()));
    assert_eq!(who.verifier_approvals, vec![addr(21)]);
    assert_eq!(event.updated_at, 7);
    assert_eq!(approve(&mut who, &mut event, &mut settings, 23, 8), Ok(()));
    assert_eq!(approve(&mut who, &mut event, &mut settings, 24, 9), Ok(()));
    assert_eq!(who.verification_status, VerificationStatus::Verified);
}

#[test]
fn rejected_after_review_is_final() {
    let mut who = person(10, 2, 5, VerificationStatus::Flagged);
    who.flagged_reason = Some("x".to_string());
    let mut event = disaster();
    let mut settings = config(3, 5);
    let verdict = ReviewFlaggedBeneficiaryParams { approve: false, notes: None };
    assert_eq!(
        review_flagged_beneficiary_handler(&mut who, &mut event, &settings, &addr(1), verdict, 7),
        Ok(())
    );
    assert_eq!(who.verification_status, VerificationStatus::Rejected);
    assert_eq!(who.flagged_reason, Some("x".to_string()));
    assert_eq!(who.admin_notes, None);
    assert_eq!(
        approve(&mut who, &mut event, &mut settings, 21, 8),
        Err(ErrorCode::CannotVerifyRejected)
    );
    let mut agent = worker(22);
    let reason = FlagBeneficiaryParams { reason: "again".to_string() };
    assert_eq!(
        flag_beneficiary_handler(&mut who, &mut agent, &settings, &addr(22), reason, 9),
        Err(ErrorCode::InvalidStatusTransition)
    );
    let verdict = ReviewFlaggedBeneficiaryParams { approve: true, notes: None };
    assert_eq!(
        review_flagged_beneficiary_handler(&mut who, &mut event, &settings, &addr(1), verdict, 9),
        Err(ErrorCode::InvalidStatusTransition)
    );
    assert_eq!(who.verification_status, VerificationStatus::Rejected);
}

#[test]
fn flag_refusals_each_have_their_code() {
    let settings = config(3, 5);
    let mut who = person(10, 2, 5, VerificationStatus::Pending);
    let flag = |text: &str| FlagBeneficiaryParams { reason: text.to_string() };

    let mut idle = worker(22);
    idle.is_active = false;
    assert_eq!(
        flag_beneficiary_handler(&mut who, &mut idle, &settings, &addr(22), flag("x"), 1),
        Err(ErrorCode::FieldWorkerNotActive)
    );
    let mut agent = worker(22);
    assert_eq!(
        flag_beneficiary_handler(&mut who, &mut agent, &settings, &addr(23), flag("x"), 1),
        Err(ErrorCode::UnauthorizedFieldWorker)
    );
    let mut paused = config(3, 5);
    paused.is_paused = true;
    assert_eq!(
        flag_beneficiary_handler(&mut who, &mut agent, &paused, &addr(22), flag("x"), 1),
        Err(ErrorCode::PlatformPaused)
    );
    let mut verified = person(10, 2, 5, VerificationStatus::Verified);
    assert_eq!(
        flag_beneficiary_handler(&mut verified, &mut agent, &settings, &addr(22), flag("x"), 1),
        Err(ErrorCode::AlreadyVerified)
    );
    assert_eq!(
        flag_beneficiary_handler(&mut who, &mut agent, &settings, &addr(22), flag(""), 1),
        Err(ErrorCode::FlaggedReasonRequired)
    );
    let long = "r".repeat(501);
    assert_eq!(
        flag_beneficiary_handler(&mut who, &mut agent, &settings, &addr(22), flag(&long), 1),
        Err(ErrorCode::StringTooLong)
    );
    let longest = "r".repeat(500);
    assert_eq!(
        flag_beneficiary_handler(&mut who, &mut agent, &settings, &addr(22), flag(&longest), 1),
        Ok(())
    );
    let mut busy = worker(22);
    busy.flags_raised = u32::MAX;
    let mut other = person(11, 2, 5, VerificationStatus::Pending);
    assert_eq!(
        flag_beneficiary_handler(&mut other, &mut busy, &settings, &addr(22), flag("x"), 1),
        Err(ErrorCode::ArithmeticOverflow)
    );
    assert_eq!(other.verification_status, VerificationStatus::Pending);
}

#[test]
fn flag_reason_limit_counts_bytes() {
    let settings = config(3, 5);
    let mut who = person(10, 2, 5, VerificationStatus::Pending);
    let mut agent = worker(22);
    let reason = FlagBeneficiaryParams { reason: "\u{e9}".repeat(251) };
    assert_eq!(
        flag_beneficiary_handler(&mut who, &mut agent, &settings, &addr(22), reason, 1),
        Err(ErrorCode::StringTooLong)
    );
}

#[test]
fn review_needs_a_flag_and_the_administrator() {
    let mut event = disaster();
    let settings = config(3, 5);
    let mut pending = person(10, 2, 5, VerificationStatus::Pending);
    let verdict = || ReviewFlaggedBeneficiaryParams { approve: true, notes: None };
    assert_eq!(
        review_flagged_beneficiary_handler(
            &mut pending,
            &mut event,
            &settings,
            &addr(1),
            verdict(),
            1
        ),
        Err(ErrorCode::InvalidStatusTransition)
    );
    let mut flagged = person(10, 2, 5, VerificationStatus::Flagged);
    assert_eq!(
        review_flagged_beneficiary_handler(
            &mut flagged,
            &mut event,
            &settings,
            &addr(2),
            verdict(),
            1
        ),
        Err(ErrorCode::UnauthorizedAdmin)
    );
    assert_eq!(flagged.verification_status, VerificationStatus::Flagged);
    assert_eq!(event.updated_at, 0);
}

#[test]
fn weights_follow_the_policy() {
    let who = person(10, 4, 9, VerificationStatus::Verified);
    assert_eq!(allocation_weight(&DistributionType::Equal, &who), 1);
    assert_eq!(allocation_weight(&DistributionType::WeightedFamily, &who), 4);
    assert_eq!(allocation_weight(&DistributionType::WeightedDamage, &who), 9);
    assert_eq!(allocation_weight(&DistributionType::Milestone, &who), 1);
}

#[test]
fn registrations_add_up_and_freeze_with_the_lock() {
    let mut fund = pool(DistributionType::WeightedFamily, 70, None);
    let mut event = disaster();
    let a = person(10, 2, 5, VerificationStatus::Verified);
    let b = person(11, 3, 5, VerificationStatus::Verified);
    let first = register_beneficiary_for_pool_handler(
        &mut fund, &a, &mut event, &addr(3), &addr(50), &addr(60), false, 7, 10,
    )
    .unwrap();
    assert_eq!(
        first,
        PoolRegistration {
            pool: addr(50),
            beneficiary: addr(60),
            allocation_weight: 2,
            registered_at: 10,
            is_distributed: false,
            bump: 7,
        }
    );
    let second = register_beneficiary_for_pool_handler(
        &mut fund, &b, &mut event, &addr(3), &addr(50), &addr(61), false, 8, 11,
    )
    .unwrap();
    assert_eq!(second.allocation_weight, 3);
    assert_eq!(fund.total_allocation_weight, first.allocation_weight + second.allocation_weight);
    assert_eq!(fund.total_allocation_weight, 5);
    assert_eq!(fund.registered_beneficiary_count, 2);
    assert_eq!(event.updated_at, 11);

    assert_eq!(lock_pool_registration_handler(&mut fund, &addr(3)), Ok(()));
    assert!(fund.registration_locked);
    let c = person(12, 6, 5, VerificationStatus::Verified);
    assert_eq!(
        register_beneficiary_for_pool_handler(
            &mut fund, &c, &mut event, &addr(3), &addr(50), &addr(62), false, 9, 12,
        ),
        Err(ErrorCode::RegistrationPhaseLocked)
    );
    assert_eq!(fund.total_allocation_weight, 5);
    assert_eq!(fund.registered_beneficiary_count, 2);
    assert_eq!(
        lock_pool_registration_handler(&mut fund, &addr(3)),
        Err(ErrorCode::RegistrationPhaseLocked)
    );
}

#[test]
fn weight_is_not_recomputed_when_the_profile_changes() {
    let mut fund = pool(DistributionType::WeightedFamily, 70, None);
    let mut event = disaster();
    let mut a = person(10, 2, 5, VerificationStatus::Verified);
    let entry = register_beneficiary_for_pool_handler(
        &mut fund, &a, &mut event, &addr(3), &addr(50), &addr(60), false, 7, 10,
    )
    .unwrap();
    a.family_size = 9;
    assert_eq!(entry.allocation_weight, 2);
    assert_eq!(fund.total_allocation_weight, 2);
}

#[test]
fn registration_refusals_each_have_their_code() {
    let mut event = disaster();
    let a = person(10, 2, 5, VerificationStatus::Verified);
    let try_register = |fund: &mut FundPool,
                        who: &Beneficiary,
                        event: &mut DisasterEvent,
                        caller: u8,
                        taken: bool| {
        register_beneficiary_for_pool_handler(
            fund, who, event, &addr(caller), &addr(50), &addr(60), taken, 7, 10,
        )
    };

    let mut closed = pool(DistributionType::Equal, 70, None);
    closed.is_active = false;
    assert_eq!(try_register(&mut closed, &a, &mut event, 3, false), Err(ErrorCode::PoolNotActive));

    let mut fund = pool(DistributionType::Equal, 70, None);
    assert_eq!(
        try_register(&mut fund, &a, &mut event, 3, true),
        Err(ErrorCode::BeneficiaryAlreadyRegisteredForPool)
    );
    let pending = person(10, 2, 5, VerificationStatus::Pending);
    assert_eq!(
        try_register(&mut fund, &pending, &mut event, 3, false),
        Err(ErrorCode::BeneficiaryNotVerified)
    );
    assert_eq!(
        try_register(&mut fund, &a, &mut event, 4, false),
        Err(ErrorCode::UnauthorizedModification)
    );
    let mut families = pool(DistributionType::Equal, 70, None);
    families.minimum_family_size = Some(3);
    assert_eq!(
        try_register(&mut families, &a, &mut event, 3, false),
        Err(ErrorCode::InvalidEligibilityCriteria)
    );
    families.minimum_family_size = Some(2);
    assert!(try_register(&mut families, &a, &mut event, 3, false).is_ok());
    let mut damaged = pool(DistributionType::Equal, 70, None);
    damaged.minimum_damage_severity = Some(6);
    assert_eq!(
        try_register(&mut damaged, &a, &mut event, 3, false),
        Err(ErrorCode::InvalidEligibilityCriteria)
    );
    let mut heavy = pool(DistributionType::WeightedFamily, 70, None);
    heavy.total_allocation_weight = u64::MAX - 1;
    assert_eq!(
        try_register(&mut heavy, &a, &mut event, 3, false),
        Err(ErrorCode::ArithmeticOverflow)
    );
    assert_eq!(heavy.total_allocation_weight, u64::MAX - 1);
    let mut full = pool(DistributionType::Equal, 70, None);
    full.registered_beneficiary_count = u32::MAX;
    assert_eq!(
        try_register(&mut full, &a, &mut event, 3, false),
        Err(ErrorCode::ArithmeticOverflow)
    );
    assert_eq!(full.total_allocation_weight, 0);
}

#[test]
fn lock_refusals_each_have_their_code() {
    let mut empty = pool(DistributionType::Equal, 70, None);
    assert_eq!(
        lock_pool_registration_handler(&mut empty, &addr(3)),
        Err(ErrorCode::NoBeneficiariesForDistribution)
    );
    let mut closed = pool(DistributionType::Equal, 70, None);
    closed.is_active = false;
    closed.registered_beneficiary_count = 1;
    assert_eq!(lock_pool_registration_handler(&mut closed, &addr(3)), Err(ErrorCode::PoolNotActive));
    let mut fund = pool(DistributionType::Equal, 70, None);
    fund.registered_beneficiary_count = 1;
    assert_eq!(
        lock_pool_registration_handler(&mut fund, &addr(4)),
        Err(ErrorCode::UnauthorizedModification)
    );
    assert!(!fund.registration_locked);
}

#[test]
fn weighted_family_pool_of_one_thousand_splits_four_hundred_and_six_hundred() {
    let mut fund = pool(DistributionType::WeightedFamily, 70, Some(30 * DAY));
    let mut event = disaster();
    let a = person(10, 2, 5, VerificationStatus::Verified);
    let b = person(11, 3, 5, VerificationStatus::Verified);
    let mut entry_a = register_beneficiary_for_pool_handler(
        &mut fund, &a, &mut event, &addr(3), &addr(50), &addr(60), false, 7, 10,
    )
    .unwrap();
    let mut entry_b = register_beneficiary_for_pool_handler(
        &mut fund, &b, &mut event, &addr(3), &addr(50), &addr(61), false, 8, 11,
    )
    .unwrap();
    fund.total_deposited = 1000;
    assert_eq!(lock_pool_registration_handler(&mut fund, &addr(3)), Ok(()));

    let share_a = distribution::handler(
        &mut fund, &mut entry_a, &a, &mut event, &addr(3), &addr(50), &addr(60), 1, 1000,
    )
    .unwrap();
    assert_eq!(share_a.amount_allocated, 400);
    assert_eq!(share_a.amount_immediate, 280);
    assert_eq!(share_a.amount_locked, 120);
    assert_eq!(share_a.amount_claimed, 0);
    assert_eq!(share_a.unlock_time, Some(1000 + 30 * DAY));
    assert_eq!(share_a.claim_deadline, Some(1000 + 90 * DAY));
    assert_eq!(share_a.created_at, 1000);
    assert_eq!(share_a.allocation_weight, 2);
    assert_eq!(share_a.beneficiary, addr(60));
    assert_eq!(share_a.pool, addr(50));
    assert!(!share_a.is_fully_claimed);
    assert!(!share_a.is_expired);
    assert!(entry_a.is_distributed);

    let share_b = distribution::handler(
        &mut fund, &mut entry_b, &b, &mut event, &addr(3), &addr(50), &addr(61), 2, 1001,
    )
    .unwrap();
    assert_eq!(share_b.amount_allocated, 600);
    assert_eq!(share_b.amount_immediate, 420);
    assert_eq!(share_b.amount_locked, 180);
    assert_eq!(fund.total_distributed, 1000);
    assert_eq!(fund.beneficiary_count, 2);
    assert!(fund.total_claimed <= fund.total_distributed);
    assert!(fund.total_distributed <= fund.total_deposited);
    assert_eq!(event.updated_at, 1001);
}

#[test]
fn weightless_pool_splits_by_head() {
    assert_eq!(calculate_share(900, 0, 0, 3), Ok(300));
    assert_eq!(calculate_share(900, 5, 0, 3), Ok(300));
    assert_eq!(calculate_share(900, 0, 0, 0), Ok(900));
    assert_eq!(calculate_share(901, 0, 0, 3), Ok(300));

    let mut fund = pool(DistributionType::Equal, 50, None);
    fund.total_deposited = 900;
    fund.registered_beneficiary_count = 3;
    fund.registration_locked = true;
    let mut event = disaster();
    let who = person(10, 2, 5, VerificationStatus::Verified);
    for n in 0..3u8 {
        let mut entry = PoolRegistration {
            pool: addr(50),
            beneficiary: addr(60 + n),
            allocation_weight: 0,
            registered_at: 0,
            is_distributed: false,
            bump: 1,
        };
        let made = distribution::handler(
            &mut fund, &mut entry, &who, &mut event, &addr(3), &addr(50), &addr(60 + n), 1, 5,
        )
        .unwrap();
        assert_eq!(made.amount_allocated, 300);
        assert_eq!(made.amount_immediate, 150);
        assert_eq!(made.amount_locked, 150);
    }
    assert_eq!(fund.total_distributed, 900);
    assert_eq!(fund.total_distributed, fund.total_deposited);
}

#[test]
fn share_rounds_down_and_widens_before_dividing() {
    assert_eq!(calculate_share(1000, 2, 5, 2), Ok(400));
    assert_eq!(calculate_share(1000, 3, 5, 2), Ok(600));
    assert_eq!(calculate_share(1000, 1, 3, 3), Ok(333));
    assert_eq!(calculate_share(0, 1, 3, 3), Ok(0));
    assert_eq!(calculate_share(u64::MAX, 50, 100, 2), Ok(u64::MAX / 2));
    assert_eq!(calculate_share(u64::MAX, u64::MAX, u64::MAX, 1), Ok(u64::MAX));
    assert_eq!(calculate_share(u64::MAX, 3, 2, 1), Err(ErrorCode::ArithmeticOverflow));
}

#[test]
fn split_never_loses_a_unit() {
    assert_eq!(split_share(400, 70), Ok((280, 120)));
    assert_eq!(split_share(600, 70), Ok((420, 180)));
    assert_eq!(split_share(333, 70), Ok((233, 100)));
    assert_eq!(split_share(1, 99), Ok((0, 1)));
    assert_eq!(split_share(500, 0), Ok((0, 500)));
    assert_eq!(split_share(500, 100), Ok((500, 0)));
    assert_eq!(split_share(u64::MAX, 100), Ok((u64::MAX, 0)));
    assert_eq!(split_share(100, 101), Err(ErrorCode::ArithmeticUnderflow));
    assert_eq!(split_share(u64::MAX, 200), Err(ErrorCode::ArithmeticOverflow));
    for amount in [0u64, 1, 7, 99, 101, 12_345, u64::MAX] {
        for percentage in [0u8, 1, 33, 50, 70, 99, 100] {
            let (immediate, locked) = split_share(amount, percentage).unwrap();
            assert_eq!(immediate + locked, amount);
            assert_eq!(immediate as u128, amount as u128 * percentage as u128 / 100);
        }
    }
}

#[test]
fn distribution_refusals_each_have_their_code() {
    let who = person(10, 2, 5, VerificationStatus::Verified);
    let ready = || {
        let mut fund = pool(DistributionType::Equal, 70, Some(DAY));
        fund.total_deposited = 1000;
        fund.total_allocation_weight = 2;
        fund.registered_beneficiary_count = 2;
        fund.registration_locked = true;
        fund
    };
    let entry = || PoolRegistration {
        pool: addr(50),
        beneficiary: addr(60),
        allocation_weight: 1,
        registered_at: 0,
        is_distributed: false,
        bump: 1,
    };
    let run = |fund: &mut FundPool, entry: &mut PoolRegistration, who: &Beneficiary, caller: u8, now: i64| {
        let mut event = disaster();
        distribution::handler(
            fund, entry, who, &mut event, &addr(caller), &addr(50), &addr(60), 1, now,
        )
        .map(|made| made.amount_allocated)
    };

    let mut closed = ready();
    closed.is_active = false;
    assert_eq!(run(&mut closed, &mut entry(), &who, 3, 0), Err(ErrorCode::PoolNotActive));
    let mut done = ready();
    done.is_distributed = true;
    assert_eq!(
        run(&mut done, &mut entry(), &who, 3, 0),
        Err(ErrorCode::DistributionAlreadyCompleted)
    );
    let pending = person(10, 2, 5, VerificationStatus::Pending);
    assert_eq!(
        run(&mut ready(), &mut entry(), &pending, 3, 0),
        Err(ErrorCode::BeneficiaryNotVerified)
    );
    assert_eq!(
        run(&mut ready(), &mut entry(), &who, 4, 0),
        Err(ErrorCode::UnauthorizedModification)
    );
    let mut foreign = entry();
    foreign.pool = addr(51);
    assert_eq!(
        run(&mut ready(), &mut foreign, &who, 3, 0),
        Err(ErrorCode::BeneficiaryNotRegisteredForPool)
    );
    let mut other = entry();
    other.beneficiary = addr(61);
    assert_eq!(
        run(&mut ready(), &mut other, &who, 3, 0),
        Err(ErrorCode::BeneficiaryNotRegisteredForPool)
    );
    let mut served = entry();
    served.is_distributed = true;
    assert_eq!(
        run(&mut ready(), &mut served, &who, 3, 0),
        Err(ErrorCode::DistributionAlreadyCompleted)
    );
    let mut open = ready();
    open.registration_locked = false;
    assert_eq!(
        run(&mut open, &mut entry(), &who, 3, 0),
        Err(ErrorCode::PoolRegistrationNotLocked)
    );
    let mut skewed = ready();
    skewed.distribution_percentage_immediate = 150;
    assert_eq!(run(&mut skewed, &mut entry(), &who, 3, 0), Err(ErrorCode::ArithmeticUnderflow));
    assert_eq!(
        run(&mut ready(), &mut entry(), &who, 3, i64::MAX - 10),
        Err(ErrorCode::ArithmeticOverflow)
    );
    let mut booked = ready();
    booked.total_distributed = u64::MAX;
    assert_eq!(run(&mut booked, &mut entry(), &who, 3, 0), Err(ErrorCode::ArithmeticOverflow));
    let mut crowded = ready();
    crowded.beneficiary_count = u32::MAX;
    assert_eq!(run(&mut crowded, &mut entry(), &who, 3, 0), Err(ErrorCode::ArithmeticOverflow));
    let mut wide = entry();
    wide.allocation_weight = 70_000;
    let mut roomy = ready();
    roomy.total_allocation_weight = 140_000;
    assert_eq!(run(&mut roomy, &mut wide, &who, 3, 0), Err(ErrorCode::ArithmeticOverflow));
    assert_eq!(run(&mut ready(), &mut entry(), &who, 3, 0), Ok(500));
}

#[test]
fn refused_distribution_changes_nothing() {
    let who = person(10, 2, 5, VerificationStatus::Verified);
    let mut fund = pool(DistributionType::Equal, 70, None);
    fund.total_deposited = 1000;
    fund.total_allocation_weight = 1;
    fund.registered_beneficiary_count = 1;
    fund.registration_locked = true;
    fund.total_distributed = u64::MAX;
    let mut entry = PoolRegistration {
        pool: addr(50),
        beneficiary: addr(60),
        allocation_weight: 1,
        registered_at: 0,
        is_distributed: false,
        bump: 1,
    };
    let mut event = disaster();
    let before = (fund.clone(), entry.clone(), event.clone());
    assert!(distribution::handler(
        &mut fund, &mut entry, &who, &mut event, &addr(3), &addr(50), &addr(60), 1, 5,
    )
    .is_err());
    assert_eq!((fund, entry, event), before);
}

#[test]
fn a_registration_is_served_once() {
    let who = person(10, 2, 5, VerificationStatus::Verified);
    let mut fund = pool(DistributionType::Equal, 70, None);
    fund.total_deposited = 1000;
    fund.total_allocation_weight = 1;
    fund.registered_beneficiary_count = 1;
    fund.registration_locked = true;
    let mut entry = PoolRegistration {
        pool: addr(50),
        beneficiary: addr(60),
        allocation_weight: 1,
        registered_at: 0,
        is_distributed: false,
        bump: 1,
    };
    let mut event = disaster();
    assert!(distribution::handler(
        &mut fund, &mut entry, &who, &mut event, &addr(3), &addr(50), &addr(60), 1, 5,
    )
    .is_ok());
    assert_eq!(
        distribution::handler(
            &mut fund, &mut entry, &who, &mut event, &addr(3), &addr(50), &addr(60), 1, 6,
        ),
        Err(ErrorCode::DistributionAlreadyCompleted)
    );
    assert_eq!(fund.total_distributed, 1000);
}

#[test]
fn share_without_lock_or_without_locked_part_has_no_unlock_time() {
    let who = person(10, 2, 5, VerificationStatus::Verified);
    let run = |immediate: u8, lock: Option<i64>| {
        let mut fund = pool(DistributionType::Equal, immediate, lock);
        fund.total_deposited = 1000;
        fund.total_allocation_weight = 1;
        fund.registered_beneficiary_count = 1;
        fund.registration_locked = true;
        let mut entry = PoolRegistration {
            pool: addr(50),
            beneficiary: addr(60),
            allocation_weight: 1,
            registered_at: 0,
            is_distributed: false,
            bump: 1,
        };
        let mut event = disaster();
        distribution::handler(
            &mut fund, &mut entry, &who, &mut event, &addr(3), &addr(50), &addr(60), 1, 5,
        )
        .unwrap()
    };
    assert_eq!(run(70, None).unlock_time, None);
    assert_eq!(run(100, Some(DAY)).unlock_time, None);
    assert_eq!(run(100, Some(DAY)).amount_locked, 0);
    assert_eq!(run(70, Some(DAY)).unlock_time, Some(5 + DAY));
    assert_eq!(run(0, Some(DAY)).amount_immediate, 0);
}

#[test]
fn share_of_nothing_is_closed_from_the_start() {
    let who = person(10, 2, 5, VerificationStatus::Verified);
    let mut fund = pool(DistributionType::Equal, 70, None);
    fund.total_allocation_weight = 1;
    fund.registered_beneficiary_count = 1;
    fund.registration_locked = true;
    let mut entry = PoolRegistration {
        pool: addr(50),
        beneficiary: addr(60),
        allocation_weight: 1,
        registered_at: 0,
        is_distributed: false,
        bump: 1,
    };
    let mut event = disaster();
    let mut made = distribution::handler(
        &mut fund, &mut entry, &who, &mut event, &addr(3), &addr(50), &addr(60), 1, 5,
    )
    .unwrap();
    assert_eq!(made.amount_allocated, 0);
    assert!(made.is_fully_claimed);
    let mut receiver = person(10, 2, 5, VerificationStatus::Verified);
    assert_eq!(
        claim(&mut made, &mut fund, &mut receiver, 6),
        Err(ErrorCode::DistributionAlreadyClaimed)
    );
}

#[test]
fn claim_before_unlock_pays_only_the_immediate_part() {
    let mut what = share(400, 280, Some(1000));
    let mut fund = pool(DistributionType::Equal, 70, Some(1000));
    fund.total_deposited = 400;
    fund.total_distributed = 400;
    let mut who = person(10, 2, 5, VerificationStatus::Verified);
    assert_eq!(claim(&mut what, &mut fund, &mut who, 999), Ok(280));
    assert_eq!(what.amount_claimed, 280);
    assert_eq!(what.claimed_at, Some(999));
    assert_eq!(what.locked_claimed_at, None);
    assert!(!what.is_fully_claimed);
    assert_eq!(fund.total_claimed, 280);
    assert_eq!(who.total_received, 280);

    let before = (what.clone(), fund.clone(), who.clone());
    assert_eq!(claim(&mut what, &mut fund, &mut who, 999), Err(ErrorCode::DistributionLocked));
    assert_eq!((what.clone(), fund.clone(), who.clone()), before);

    assert_eq!(claim(&mut what, &mut fund, &mut who, 1000), Ok(120));
    assert_eq!(what.amount_claimed, 400);
    assert_eq!(what.claimed_at, Some(999));
    assert_eq!(what.locked_claimed_at, Some(1000));
    assert!(what.is_fully_claimed);
    assert_eq!(fund.total_claimed, 400);
    assert_eq!(who.total_received, 400);
    assert!(fund.total_claimed <= fund.total_distributed);
}

#[test]
fn second_claim_after_full_payment_pays_nothing() {
    let mut what = share(600, 420, None);
    let mut fund = pool(DistributionType::Equal, 70, None);
    fund.total_deposited = 600;
    fund.total_distributed = 600;
    let mut who = person(10, 2, 5, VerificationStatus::Verified);
    assert_eq!(claim(&mut what, &mut fund, &mut who, 5), Ok(600));
    assert!(what.is_fully_claimed);
    assert_eq!(what.claimed_at, Some(5));
    assert_eq!(what.locked_claimed_at, Some(5));
    let before = (what.clone(), fund.clone(), who.clone());
    for now in [5, 6, 1_000_000, i64::MAX] {
        assert_eq!(
            claim(&mut what, &mut fund, &mut who, now),
            Err(ErrorCode::DistributionAlreadyClaimed)
        );
        assert_eq!(what.amount_claimed, 600);
    }
    assert_eq!((what, fund, who), before);
}

#[test]
fn claim_at_or_after_unlock_pays_everything_at_once() {
    let mut what = share(400, 280, Some(1000));
    let mut fund = pool(DistributionType::Equal, 70, Some(1000));
    let mut who = person(10, 2, 5, VerificationStatus::Verified);
    assert_eq!(claim(&mut what, &mut fund, &mut who, 1000), Ok(400));
    assert!(what.is_fully_claimed);
}

#[test]
fn locked_only_share_waits_for_unlock() {
    let mut what = share(400, 0, Some(1000));
    let mut fund = pool(DistributionType::Equal, 0, Some(1000));
    let mut who = person(10, 2, 5, VerificationStatus::Verified);
    assert_eq!(claim(&mut what, &mut fund, &mut who, 999), Err(ErrorCode::DistributionLocked));
    assert_eq!(what.amount_claimed, 0);
    assert_eq!(what.claimed_at, None);
    assert!(!what.is_fully_claimed);
    assert_eq!(claim(&mut what, &mut fund, &mut who, 1001), Ok(400));
    assert_eq!(what.claimed_at, None);
    assert_eq!(what.locked_claimed_at, Some(1001));
}

#[test]
fn claim_refusals_each_have_their_code() {
    let mut fund = pool(DistributionType::Equal, 70, None);
    let mut who = person(10, 2, 5, VerificationStatus::Verified);
    let owner = who.authority;
    let good = TokenAccountInfo { key: addr(99), mint: addr(9), owner };

    let mut what = share(400, 280, None);
    assert_eq!(
        claim_distribution_handler(
            &mut what, &mut fund, &mut who, &addr(61), &owner, &pool_tokens(), &good, 5,
        ),
        Err(ErrorCode::UnauthorizedBeneficiary)
    );
    let wrong_pool_account = TokenAccountInfo { key: addr(5), mint: addr(9), owner: addr(50) };
    assert_eq!(
        claim_distribution_handler(
            &mut what, &mut fund, &mut who, &addr(60), &owner, &wrong_pool_account, &good, 5,
        ),
        Err(ErrorCode::TokenAccountMismatch)
    );
    assert_eq!(
        claim_distribution_handler(
            &mut what, &mut fund, &mut who, &addr(60), &addr(11), &pool_tokens(), &wallet_tokens(11), 5,
        ),
        Err(ErrorCode::UnauthorizedBeneficiary)
    );
    assert_eq!(
        claim_distribution_handler(
            &mut what, &mut fund, &mut who, &addr(60), &owner, &pool_tokens(), &wallet_tokens(11), 5,
        ),
        Err(ErrorCode::InvalidAccountOwner)
    );
    let wrong_mint = TokenAccountInfo { key: addr(99), mint: addr(8), owner };
    assert_eq!(
        claim_distribution_handler(
            &mut what, &mut fund, &mut who, &addr(60), &owner, &pool_tokens(), &wrong_mint, 5,
        ),
        Err(ErrorCode::InvalidTokenMint)
    );
    let mut closed = share(400, 280, None);
    closed.is_fully_claimed = true;
    assert_eq!(
        claim(&mut closed, &mut fund, &mut who, 5),
        Err(ErrorCode::DistributionAlreadyClaimed)
    );
    let mut huge = share(400, 280, None);
    huge.amount_immediate = u64::MAX;
    huge.amount_locked = 1;
    assert_eq!(claim(&mut huge, &mut fund, &mut who, 5), Err(ErrorCode::ArithmeticOverflow));
    let mut odd = share(400, 280, None);
    odd.amount_claimed = u64::MAX;
    assert_eq!(claim(&mut odd, &mut fund, &mut who, 5), Err(ErrorCode::ArithmeticOverflow));
    let mut drained = pool(DistributionType::Equal, 70, None);
    drained.total_claimed = u64::MAX;
    assert_eq!(claim(&mut what, &mut drained, &mut who, 5), Err(ErrorCode::ArithmeticOverflow));
    let mut rich = person(10, 2, 5, VerificationStatus::Verified);
    rich.total_received = u64::MAX;
    assert_eq!(claim(&mut what, &mut fund, &mut rich, 5), Err(ErrorCode::ArithmeticOverflow));
    assert_eq!(what.amount_claimed, 0);
    assert_eq!(what.claimed_at, None);
    assert_eq!(rich.total_received, u64::MAX);
}

#[test]
fn batch_claim_is_not_offered() {
    assert_eq!(batch_claim_distributions_handler(), Err(ErrorCode::NotImplemented));
}

#[test]
fn untouched_share_of_five_hundred_is_reclaimed_after_the_deadline() {
    let mut what = share(500, 350, Some(30 * DAY));
    let mut fund = pool(DistributionType::Equal, 70, Some(30 * DAY));
    fund.total_deposited = 2000;
    fund.total_distributed = 1200;
    fund.total_claimed = 100;
    assert_eq!(
        reclaim_expired_distribution_handler(&mut what, &mut fund, &addr(3), &addr(50), 90 * DAY + 1),
        Ok(())
    );
    assert_eq!(fund.total_distributed, 700);
    assert_eq!(fund.total_deposited, 2000);
    assert_eq!(fund.total_claimed, 100);
    assert!(what.is_expired);
    assert!(what.is_fully_claimed);
    assert_eq!(what.expired_at, Some(90 * DAY + 1));
    assert_eq!(what.amount_allocated, 500);
    assert_eq!(what.amount_claimed, 0);

    let mut who = person(10, 2, 5, VerificationStatus::Verified);
    assert_eq!(
        claim(&mut what, &mut fund, &mut who, 90 * DAY + 2),
        Err(ErrorCode::DistributionAlreadyClaimed)
    );
    assert_eq!(
        reclaim_expired_distribution_handler(&mut what, &mut fund, &addr(3), &addr(50), 91 * DAY),
        Err(ErrorCode::DistributionAlreadyExpired)
    );
    assert_eq!(fund.total_distributed, 700);
}

#[test]
fn partly_claimed_share_is_never_reclaimed() {
    let mut what = share(400, 280, Some(200 * DAY));
    let mut fund = pool(DistributionType::Equal, 70, Some(200 * DAY));
    fund.total_deposited = 400;
    fund.total_distributed = 400;
    let mut who = person(10, 2, 5, VerificationStatus::Verified);
    assert_eq!(claim(&mut what, &mut fund, &mut who, 10), Ok(280));
    for now in [90 * DAY + 1, 365 * DAY, i64::MAX] {
        assert_eq!(
            reclaim_expired_distribution_handler(&mut what, &mut fund, &addr(3), &addr(50), now),
            Err(ErrorCode::DistributionPartiallyClaimed)
        );
    }
    assert!(!what.is_expired);
    assert_eq!(fund.total_distributed, 400);
    assert_eq!(claim(&mut what, &mut fund, &mut who, 200 * DAY), Ok(120));
}

#[test]
fn reclaim_refusals_each_have_their_code() {
    let mut fund = pool(DistributionType::Equal, 70, None);
    fund.total_distributed = 500;
    let mut what = share(500, 350, None);
    let late = 90 * DAY + 1;
    assert_eq!(
        reclaim_expired_distribution_handler(&mut what, &mut fund, &addr(3), &addr(51), late),
        Err(ErrorCode::AccountDataMismatch)
    );
    assert_eq!(
        reclaim_expired_distribution_handler(&mut what, &mut fund, &addr(4), &addr(50), late),
        Err(ErrorCode::UnauthorizedModification)
    );
    assert_eq!(
        reclaim_expired_distribution_handler(&mut what, &mut fund, &addr(3), &addr(50), 90 * DAY),
        Err(ErrorCode::DistributionNotExpired)
    );
    let mut open_ended = share(500, 350, None);
    open_ended.claim_deadline = None;
    assert_eq!(
        reclaim_expired_distribution_handler(&mut open_ended, &mut fund, &addr(3), &addr(50), late),
        Err(ErrorCode::DistributionNotExpired)
    );
    let mut short = pool(DistributionType::Equal, 70, None);
    short.total_distributed = 499;
    assert_eq!(
        reclaim_expired_distribution_handler(&mut what, &mut short, &addr(3), &addr(50), late),
        Err(ErrorCode::ArithmeticUnderflow)
    );
    assert!(!what.is_expired);
    assert_eq!(short.total_distributed, 499);
}

#[test]
fn books_balance_through_a_whole_life_of_a_pool() {
    let mut fund = pool(DistributionType::WeightedDamage, 60, Some(10 * DAY));
    let mut event = disaster();
    let people = [
        person(10, 2, 3, VerificationStatus::Verified),
        person(11, 3, 7, VerificationStatus::Verified),
        person(12, 5, 10, VerificationStatus::Verified),
    ];
    let mut entries = Vec::new();
    for (n, who) in people.iter().enumerate() {
        entries.push(
            register_beneficiary_for_pool_handler(
                &mut fund, who, &mut event, &addr(3), &addr(50), &addr(60), false, n as u8, 1,
            )
            .unwrap(),
        );
    }
    assert_eq!(fund.total_allocation_weight, 20);
    fund.total_deposited = 1001;
    assert_eq!(lock_pool_registration_handler(&mut fund, &addr(3)), Ok(()));
    let balanced = |fund: &FundPool| {
        fund.total_claimed <= fund.total_distributed && fund.total_distributed <= fund.total_deposited
    };
    let mut shares = Vec::new();
    for (who, entry) in people.iter().zip(entries.iter_mut()) {
        shares.push(
            distribution::handler(
                &mut fund, entry, who, &mut event, &addr(3), &addr(50), &addr(60), 1, 100,
            )
            .unwrap(),
        );
        assert!(balanced(&fund));
    }
    assert_eq!(shares[0].amount_allocated, 150);
    assert_eq!(shares[1].amount_allocated, 350);
    assert_eq!(shares[2].amount_allocated, 500);
    assert_eq!(fund.total_distributed, 1000);
    let mut receivers = people.clone();
    assert_eq!(claim(&mut shares[0], &mut fund, &mut receivers[0], 200), Ok(90));
    assert!(balanced(&fund));
    assert_eq!(claim(&mut shares[1], &mut fund, &mut receivers[1], 100 + 10 * DAY), Ok(350));
    assert!(balanced(&fund));
    assert_eq!(
        reclaim_expired_distribution_handler(
            &mut shares[2],
            &mut fund,
            &addr(3),
            &addr(50),
            101 + 90 * DAY
        ),
        Ok(())
    );
    assert!(balanced(&fund));
    assert_eq!(fund.total_distributed, 500);
    assert_eq!(fund.total_claimed, 440);
    for made in shares.iter() {
        assert_eq!(made.amount_immediate + made.amount_locked, made.amount_allocated);
        assert!(made.amount_claimed <= made.amount_allocated);
    }
}

#[test]
fn pool_moves_through_its_phases() {
    let mut fund = pool(DistributionType::Equal, 70, None);
    let mut event = disaster();
    let who = person(10, 2, 5, VerificationStatus::Verified);
    assert_eq!(fund.phase(), PoolPhase::Open);
    let mut entry = register_beneficiary_for_pool_handler(
        &mut fund, &who, &mut event, &addr(3), &addr(50), &addr(60), false, 7, 10,
    )
    .unwrap();
    assert_eq!(fund.phase(), PoolPhase::Open);
    fund.total_deposited = 100;
    assert_eq!(lock_pool_registration_handler(&mut fund, &addr(3)), Ok(()));
    assert_eq!(fund.phase(), PoolPhase::Locked);
    assert!(distribution::handler(
        &mut fund, &mut entry, &who, &mut event, &addr(3), &addr(50), &addr(60), 1, 20,
    )
    .is_ok());
    assert_eq!(fund.phase(), PoolPhase::Distributing);
    fund.is_active = false;
    assert_eq!(fund.phase(), PoolPhase::Closed);
    assert_eq!(
        lock_pool_registration_handler(&mut fund, &addr(3)),
        Err(ErrorCode::PoolNotActive)
    );
}

#[test]
fn waiting_for_unlock_and_paid_in_full_have_different_codes() {
    let mut what = share(400, 280, Some(1000));
    let mut fund = pool(DistributionType::Equal, 70, Some(1000));
    let mut who = person(10, 2, 5, VerificationStatus::Verified);
    assert_eq!(claim(&mut what, &mut fund, &mut who, 10), Ok(280));
    for now in [i64::MIN, 10, 11, 999] {
        assert_eq!(claim(&mut what, &mut fund, &mut who, now), Err(ErrorCode::DistributionLocked));
        assert_eq!(what.amount_claimed, 280);
        assert_eq!(what.locked_claimed_at, None);
        assert_eq!(fund.total_claimed, 280);
    }
    assert_eq!(claim(&mut what, &mut fund, &mut who, 1000), Ok(120));
    for now in [10, 999, 1000, i64::MAX] {
        assert_eq!(
            claim(&mut what, &mut fund, &mut who, now),
            Err(ErrorCode::DistributionAlreadyClaimed)
        );
    }
    let mut spent = share(400, 280, None);
    spent.claimed_at = Some(1);
    spent.locked_claimed_at = Some(1);
    spent.amount_claimed = 400;
    assert_eq!(
        claim(&mut spent, &mut fund, &mut who, 5),
        Err(ErrorCode::DistributionAlreadyClaimed)
    );
}
