use crate::address::Address;
use crate::errors::ErrorCode;
use crate::instructions::distribution::{
    allocation_failure, awaits_unlock, claim_refusal, claimed, distribution_refusal, immediate_due,
    is_new_share, locked_due, payable, pool_with_share, reclaim_refusal, reclaimed,
};
use crate::instructions::fund_pool::{
    close_refusal, donation_refusal, pool_update_refusal, pool_updated, DonateToPoolParams,
    UpdatePoolConfigParams,
};
use crate::instructions::pool_registration::{
    lock_refusal, pool_with_registration, registration_refusal,
};
use crate::instructions::verification::{
    approval_recorded, approval_refusal, flag_refusal, reaches_threshold, review_refusal, reviewed,
};
use crate::state::beneficiary::Beneficiary;
use crate::state::distribution::Distribution;
use crate::state::enums::VerificationStatus;
use crate::state::field_worker::FieldWorker;
use crate::state::fund_pool::{FundPool, PoolPhase};
use crate::state::ngo::NGO;
use crate::state::pool_registration::PoolRegistration;
use crate::state::platform_config::PlatformConfig;
use crate::state::token_account::TokenAccountInfo;
use vstd::prelude::*;

verus! {

/// Split exactness. Every share that is allocated is well formed: its
/// immediate and its locked part add up to the amount allocated, to the last
/// unit.
pub proof fn law_split_is_exact(
    share: Distribution,
    pool: FundPool,
    weight: u64,
    pool_key: Address,
    beneficiary_key: Address,
    bump: u8,
    now: i64,
)
    requires
        allocation_failure(pool, weight, now) is None,
        is_new_share(share, pool, weight, pool_key, beneficiary_key, bump, now),
    ensures
        share.amount_immediate + share.amount_locked == share.amount_allocated,
        share.well_formed(),
{
}

/// Split exactness is kept. Paying a claim and taking a share back change
/// none of the three amounts, and leave a well-formed share well formed.
pub proof fn law_split_is_kept(share: Distribution, now: i64)
    requires
        share.well_formed(),
    ensures
        claimed(share, now).amount_allocated == share.amount_allocated,
        claimed(share, now).amount_immediate == share.amount_immediate,
        claimed(share, now).amount_locked == share.amount_locked,
        reclaimed(share, now).amount_allocated == share.amount_allocated,
        reclaimed(share, now).amount_immediate == share.amount_immediate,
        reclaimed(share, now).amount_locked == share.amount_locked,
        !share.is_fully_claimed && payable(share, now) > 0 ==> claimed(share, now).well_formed(),
        share.amount_claimed == 0 ==> reclaimed(share, now).well_formed(),
{
}

/// A well-formed share never has more paid than was allocated, and a claim
/// pays no more than what is still unpaid.
pub proof fn law_never_overpaid(share: Distribution, now: i64)
    requires
        share.well_formed(),
    ensures
        share.amount_claimed <= share.amount_allocated,
        share.amount_claimed + payable(share, now) <= share.amount_allocated,
{
}

/// Claim monotonicity. The amount claimed of a share never goes down: a claim
/// raises it by what it pays, and taking a share back leaves it as it is.
pub proof fn law_claimed_never_decreases(share: Distribution, now: i64)
    requires
        share.well_formed(),
    ensures
        claimed(share, now).amount_claimed >= share.amount_claimed,
        reclaimed(share, now).amount_claimed == share.amount_claimed,
{
}

/// No second payment. Once a claim has paid a share in full, every further
/// claim on it is refused, at whatever time: with "already claimed" where the
/// accounts are the right ones, and never accepted.
pub proof fn law_no_claim_after_full_payment(
    share: Distribution,
    paid_at: i64,
    pool: FundPool,
    beneficiary: Beneficiary,
    beneficiary_key: Address,
    beneficiary_authority: Address,
    pool_token_account: TokenAccountInfo,
    beneficiary_token_account: TokenAccountInfo,
    now: i64,
)
    requires
        share.well_formed(),
        claimed(share, paid_at).amount_claimed == share.amount_allocated,
    ensures
        claim_refusal(
            claimed(share, paid_at),
            pool,
            beneficiary,
            beneficiary_key,
            beneficiary_authority,
            pool_token_account,
            beneficiary_token_account,
            now,
        ) is Some,
        share.beneficiary@ == beneficiary_key@ && pool_token_account.key@ == pool.token_account@
            && beneficiary.authority@ == beneficiary_authority@
            && beneficiary_token_account.owner@ == beneficiary_authority@
            && beneficiary_token_account.mint@ == pool.token_mint@ ==> claim_refusal(
            claimed(share, paid_at),
            pool,
            beneficiary,
            beneficiary_key,
            beneficiary_authority,
            pool_token_account,
            beneficiary_token_account,
            now,
        ) == Some(ErrorCode::DistributionAlreadyClaimed),
{
}

/// No part is paid twice. What a second claim pays, after a first one at
/// `first`, is nothing of what the first one paid: both together pay no more
/// than was due over the whole time.
pub proof fn law_no_part_paid_twice(share: Distribution, first: i64, second: i64)
    requires
        share.well_formed(),
    ensures
        immediate_due(share) > 0 ==> immediate_due(claimed(share, first)) == 0,
        locked_due(share, first) > 0 ==> locked_due(claimed(share, first), second) == 0,
        payable(share, first) + payable(claimed(share, first), second) <= share.amount_allocated
            - share.amount_claimed,
{
}

/// A closed share takes no claim. Whatever the time and the accounts, a claim
/// on a share that is fully claimed or was taken back is refused.
pub proof fn law_closed_share_takes_no_claim(
    share: Distribution,
    pool: FundPool,
    beneficiary: Beneficiary,
    beneficiary_key: Address,
    beneficiary_authority: Address,
    pool_token_account: TokenAccountInfo,
    beneficiary_token_account: TokenAccountInfo,
    now: i64,
)
    requires
        share.is_fully_claimed || (share.well_formed() && share.is_expired),
    ensures
        claim_refusal(
            share,
            pool,
            beneficiary,
            beneficiary_key,
            beneficiary_authority,
            pool_token_account,
            beneficiary_token_account,
            now,
        ) is Some,
{
}

/// Reclaim guard. A share of which anything was ever paid cannot be taken
/// back: not by anyone, and not at any time, however long after its deadline.
pub proof fn law_reclaim_guard(
    share: Distribution,
    pool: FundPool,
    authority: Address,
    pool_key: Address,
    now: i64,
)
    requires
        share.amount_claimed > 0,
    ensures
        reclaim_refusal(share, pool, authority, pool_key, now) is Some,
{
}

/// A share is taken back at most once, and not before its deadline has
/// passed.
pub proof fn law_reclaim_once_and_late(
    share: Distribution,
    pool: FundPool,
    authority: Address,
    pool_key: Address,
    first: i64,
    now: i64,
)
    ensures
        reclaim_refusal(reclaimed(share, first), pool, authority, pool_key, now) is Some,
        share.claim_deadline is None ==> reclaim_refusal(share, pool, authority, pool_key, now)
            is Some,
        share.claim_deadline matches Some(deadline) && now <= deadline ==> reclaim_refusal(
            share,
            pool,
            authority,
            pool_key,
            now,
        ) is Some,
{
}

/// Time-lock gating. Before the unlock time a claim pays the immediate part
/// if that is still unpaid, and nothing else; the locked part stays unpaid
/// and, where it is more than nothing, goes on waiting for the unlock time.
pub proof fn law_time_lock_gates_locked_part(share: Distribution, now: i64)
    requires
        share.unlock_time matches Some(unlock_time) && now < unlock_time,
    ensures
        locked_due(share, now) == 0,
        payable(share, now) == immediate_due(share),
        payable(share, now) == 0 || payable(share, now) == share.amount_immediate,
        claimed(share, now).locked_claimed_at == share.locked_claimed_at,
        share.locked_claimed_at is None && share.amount_locked > 0 ==> awaits_unlock(share, now)
            && awaits_unlock(claimed(share, now), now),
{
}

/// Waiting is told apart from paid in full. A claim on an open share of
/// which nothing is due because its locked part must still wait for the
/// unlock time is refused with "distribution locked", never with "already
/// claimed": the claimant is to come back, and nothing has changed.
pub proof fn law_waiting_claim_is_told_to_wait(
    share: Distribution,
    pool: FundPool,
    beneficiary: Beneficiary,
    beneficiary_key: Address,
    beneficiary_authority: Address,
    pool_token_account: TokenAccountInfo,
    beneficiary_token_account: TokenAccountInfo,
    now: i64,
)
    requires
        share.beneficiary@ == beneficiary_key@,
        pool_token_account.key@ == pool.token_account@,
        beneficiary.authority@ == beneficiary_authority@,
        beneficiary_token_account.owner@ == beneficiary_authority@,
        beneficiary_token_account.mint@ == pool.token_mint@,
        !share.is_fully_claimed,
        immediate_due(share) == 0,
        awaits_unlock(share, now),
    ensures
        payable(share, now) == 0,
        claim_refusal(
            share,
            pool,
            beneficiary,
            beneficiary_key,
            beneficiary_authority,
            pool_token_account,
            beneficiary_token_account,
            now,
        ) == Some(ErrorCode::DistributionLocked),
{
}

/// "Already claimed" is for closed shares only, and "distribution locked"
/// for waiting ones only. Of a well-formed share, a claim is refused with
/// "already claimed" only where the share is fully claimed or was taken
/// back, and with "distribution locked" only where the share is open and its
/// locked part awaits the unlock time.
pub proof fn law_claim_codes_are_told_apart(
    share: Distribution,
    pool: FundPool,
    beneficiary: Beneficiary,
    beneficiary_key: Address,
    beneficiary_authority: Address,
    pool_token_account: TokenAccountInfo,
    beneficiary_token_account: TokenAccountInfo,
    now: i64,
)
    requires
        share.well_formed(),
    ensures
        claim_refusal(
            share,
            pool,
            beneficiary,
            beneficiary_key,
            beneficiary_authority,
            pool_token_account,
            beneficiary_token_account,
            now,
        ) == Some(ErrorCode::DistributionAlreadyClaimed) ==> share.is_fully_claimed,
        claim_refusal(
            share,
            pool,
            beneficiary,
            beneficiary_key,
            beneficiary_authority,
            pool_token_account,
            beneficiary_token_account,
            now,
        ) == Some(ErrorCode::DistributionLocked) ==> !share.is_fully_claimed && awaits_unlock(
            share,
            now,
        ) && share.amount_claimed < share.amount_allocated,
{
}

/// Time-lock gating, as a claim goes. A claim before the unlock time on a
/// share of which nothing was paid yet is accepted wherever the pool's total
/// claimed and the beneficiary's total received have room for the immediate
/// part. It pays exactly the immediate part, marks that part paid at `now`,
/// and leaves the locked part unpaid and the share open.
pub proof fn law_claim_before_unlock_pays_the_immediate_part(
    share: Distribution,
    pool: FundPool,
    beneficiary: Beneficiary,
    beneficiary_key: Address,
    beneficiary_authority: Address,
    pool_token_account: TokenAccountInfo,
    beneficiary_token_account: TokenAccountInfo,
    now: i64,
)
    requires
        share.beneficiary@ == beneficiary_key@,
        pool_token_account.key@ == pool.token_account@,
        beneficiary.authority@ == beneficiary_authority@,
        beneficiary_token_account.owner@ == beneficiary_authority@,
        beneficiary_token_account.mint@ == pool.token_mint@,
        !share.is_fully_claimed,
        share.amount_claimed == 0,
        share.claimed_at is None,
        share.locked_claimed_at is None,
        share.amount_immediate > 0,
        share.amount_locked > 0,
        share.amount_immediate + share.amount_locked == share.amount_allocated,
        share.unlock_time matches Some(unlock_time) && now < unlock_time,
        pool.total_claimed + share.amount_immediate <= u64::MAX,
        beneficiary.total_received + share.amount_immediate <= u64::MAX,
    ensures
        claim_refusal(
            share,
            pool,
            beneficiary,
            beneficiary_key,
            beneficiary_authority,
            pool_token_account,
            beneficiary_token_account,
            now,
        ) is None,
        payable(share, now) == share.amount_immediate,
        claimed(share, now).amount_claimed == share.amount_immediate,
        claimed(share, now).claimed_at == Some(now),
        claimed(share, now).locked_claimed_at is None,
        !claimed(share, now).is_fully_claimed,
        awaits_unlock(claimed(share, now), now),
{
}

/// From the unlock time on, or where there is none, a claim pays all that is
/// unpaid: the share is then paid in full.
pub proof fn law_unlocked_claim_pays_all(share: Distribution, now: i64)
    requires
        share.well_formed(),
        share.unlocked_at(now),
    ensures
        share.amount_claimed + payable(share, now) == share.amount_allocated,
        payable(share, now) > 0 ==> claimed(share, now).is_fully_claimed,
{
}

/// Threshold exactness. An accepted approval leaves a beneficiary verified
/// exactly when the approvals, with the new one in them, have reached the
/// threshold; below it the beneficiary stays pending. The approver was not
/// among the earlier approvers.
pub proof fn law_threshold_is_exact(
    before: Beneficiary,
    after: Beneficiary,
    field_worker: FieldWorker,
    config: PlatformConfig,
    approver: Address,
    now: i64,
)
    requires
        approval_refusal(before, field_worker, config, approver) is None,
        approval_recorded(before, after, config, approver, now),
    ensures
        after.verifier_approvals@.len() == before.verifier_approvals@.len() + 1,
        after.verification_status is Verified <==> after.verifier_approvals@.len()
            >= config.verification_threshold,
        !(after.verification_status is Verified) ==> after.verification_status is Pending,
        after.verification_status is Verified ==> after.verified_at == Some(now),
        after.verifier_approvals@.len() <= config.max_verifiers,
        forall|i: int|
            0 <= i < before.verifier_approvals@.len() ==> (
            #[trigger] before.verifier_approvals@[i])@ != approver@,
{
}

/// A second approval by the same field worker is always refused: it is never
/// counted twice.
pub proof fn law_no_double_approval(
    before: Beneficiary,
    after: Beneficiary,
    field_worker: FieldWorker,
    later_worker: FieldWorker,
    config: PlatformConfig,
    later_config: PlatformConfig,
    approver: Address,
    now: i64,
)
    requires
        approval_refusal(before, field_worker, config, approver) is None,
        approval_recorded(before, after, config, approver, now),
    ensures
        approval_refusal(after, later_worker, later_config, approver) is Some,
{
    let last = after.verifier_approvals@.len() - 1;
    assert(after.verifier_approvals@[last] == approver);
}

/// Verified and rejected are final. No approval, flag or review is accepted
/// for a beneficiary in either state, so its status never changes again.
pub proof fn law_verified_and_rejected_are_final(
    beneficiary: Beneficiary,
    field_worker: FieldWorker,
    config: PlatformConfig,
    actor: Address,
    reason: Seq<char>,
)
    requires
        beneficiary.verification_status is Verified || beneficiary.verification_status
            is Rejected,
    ensures
        approval_refusal(beneficiary, field_worker, config, actor) is Some,
        flag_refusal(beneficiary, field_worker, config, actor, reason) is Some,
        review_refusal(beneficiary, config, actor) is Some,
{
}

/// A flag freezes the approvals, and a review does not reset them. A flagged
/// beneficiary takes no approval; a review that approves makes it pending
/// with the approvals it had, and one that does not makes it rejected.
pub proof fn law_flag_freezes_and_review_keeps_approvals(
    beneficiary: Beneficiary,
    field_worker: FieldWorker,
    config: PlatformConfig,
    approver: Address,
    approve: bool,
    notes: Option<String>,
)
    requires
        beneficiary.verification_status is Flagged,
    ensures
        approval_refusal(beneficiary, field_worker, config, approver) is Some,
        reviewed(beneficiary, approve, notes).verifier_approvals
            == beneficiary.verifier_approvals,
        approve ==> reviewed(beneficiary, approve, notes).verification_status is Pending,
        !approve ==> reviewed(beneficiary, approve, notes).verification_status is Rejected,
{
}

/// Whether the threshold is met does not depend on who approves, only on how
/// many have approved.
pub proof fn law_threshold_counts_heads(
    first: Beneficiary,
    second: Beneficiary,
    config: PlatformConfig,
)
    requires
        first.verifier_approvals@.len() == second.verifier_approvals@.len(),
    ensures
        reaches_threshold(first, config) == reaches_threshold(second, config),
{
}

/// The moves that the status of a beneficiary can make: from pending to
/// verified or flagged, from flagged back to pending or on to rejected, and
/// from any status to itself.
pub open spec fn status_may_move(from: VerificationStatus, to: VerificationStatus) -> bool {
    ||| from == to
    ||| from is Pending && to is Verified
    ||| from is Pending && to is Flagged
    ||| from is Flagged && to is Pending
    ||| from is Flagged && to is Rejected
}

/// The status of a beneficiary only ever moves along its state machine. An
/// approval leaves it pending or makes it verified, a flag makes it flagged,
/// a review sends it back to pending or on to rejected; nothing else moves
/// it. A beneficiary becomes verified by an approval that meets the
/// threshold and in no other way.
pub proof fn law_status_follows_the_machine(
    before: Beneficiary,
    after: Beneficiary,
    field_worker: FieldWorker,
    config: PlatformConfig,
    actor: Address,
    reason: Seq<char>,
    approve: bool,
    notes: Option<String>,
    now: i64,
)
    ensures
        approval_refusal(before, field_worker, config, actor) is None && approval_recorded(
            before,
            after,
            config,
            actor,
            now,
        ) ==> status_may_move(before.verification_status, after.verification_status) && (
        after.verification_status is Verified <==> reaches_threshold(before, config)),
        flag_refusal(before, field_worker, config, actor, reason) is None ==> status_may_move(
            before.verification_status,
            VerificationStatus::Flagged,
        ),
        review_refusal(before, config, actor) is None ==> status_may_move(
            before.verification_status,
            reviewed(before, approve, notes).verification_status,
        ) && !(reviewed(before, approve, notes).verification_status is Verified),
{
}

/// A pool takes registrations only while it is open, and a registration
/// leaves it open.
pub proof fn law_registration_only_while_open(
    pool: FundPool,
    beneficiary: Beneficiary,
    authority: Address,
    already_registered: bool,
    weight: u64,
)
    requires
        registration_refusal(pool, beneficiary, authority, already_registered) is None,
    ensures
        pool.phase_of() is Open,
        pool_with_registration(pool, weight).phase_of() is Open,
{
}

/// Only an open pool can be locked, and locking takes it out of the open
/// phase: to the locked phase where no share was allocated, as is the case
/// for every pool that was open until then. The lock is never repeated.
pub proof fn law_lock_is_a_one_way_latch(pool: FundPool, authority: Address)
    ensures
        lock_refusal(pool, authority) is None ==> pool.phase_of() is Open,
        lock_refusal(pool, authority) is None && pool.beneficiary_count == 0 ==> (FundPool {
            registration_locked: true,
            ..pool
        }).phase_of() is Locked,
        lock_refusal(pool, authority) is None ==> !((FundPool {
            registration_locked: true,
            ..pool
        }).phase_of() is Open),
        pool.registration_locked ==> lock_refusal(pool, authority) is Some,
{
}

/// Shares are allocated only once the pool is locked, and the first
/// allocation takes the pool to the distributing phase, where it stays.
pub proof fn law_distribution_only_after_lock(
    pool: FundPool,
    registration: PoolRegistration,
    beneficiary: Beneficiary,
    authority: Address,
    pool_key: Address,
    beneficiary_key: Address,
    amount: u64,
    now: i64,
)
    requires
        distribution_refusal(
            pool,
            registration,
            beneficiary,
            authority,
            pool_key,
            beneficiary_key,
            now,
        ) is None,
    ensures
        pool.phase_of() is Locked || pool.phase_of() is Distributing,
        pool_with_share(pool, amount).phase_of() is Distributing,
{
}

/// A closed pool takes no donation, registration, lock or allocation, and
/// cannot be closed again.
pub proof fn law_closed_pool_is_at_rest(
    pool: FundPool,
    config: PlatformConfig,
    params: DonateToPoolParams,
    registration: PoolRegistration,
    beneficiary: Beneficiary,
    authority: Address,
    donor: Address,
    pool_key: Address,
    beneficiary_key: Address,
    pool_token_account: TokenAccountInfo,
    donor_token_account: TokenAccountInfo,
    fee_recipient_account: TokenAccountInfo,
    ngo_record: Seq<u8>,
    ngo_key: Option<Address>,
    ngo: Option<NGO>,
    already_registered: bool,
    now: i64,
)
    requires
        pool.phase_of() is Closed,
    ensures
        donation_refusal(
            pool,
            config,
            params,
            donor,
            pool_token_account,
            donor_token_account,
            fee_recipient_account,
            ngo_record,
            ngo_key,
            ngo,
        ) is Some,
        registration_refusal(pool, beneficiary, authority, already_registered) is Some,
        lock_refusal(pool, authority) is Some,
        distribution_refusal(
            pool,
            registration,
            beneficiary,
            authority,
            pool_key,
            beneficiary_key,
            now,
        ) is Some,
        close_refusal(pool, authority) is Some,
{
}

/// Changing a pool's settings never touches its books, its policy or its
/// lock.
pub proof fn law_settings_leave_the_books_alone(
    pool: FundPool,
    authority: Address,
    params: UpdatePoolConfigParams,
)
    requires
        pool_update_refusal(pool, authority, params) is None,
    ensures
        pool_updated(pool, params).total_deposited == pool.total_deposited,
        pool_updated(pool, params).total_distributed == pool.total_distributed,
        pool_updated(pool, params).total_claimed == pool.total_claimed,
        pool_updated(pool, params).total_allocation_weight == pool.total_allocation_weight,
        pool_updated(pool, params).registered_beneficiary_count
            == pool.registered_beneficiary_count,
        pool_updated(pool, params).registration_locked == pool.registration_locked,
        pool_updated(pool, params).distribution_type == pool.distribution_type,
        pool_updated(pool, params).distribution_percentage_immediate
            == pool.distribution_percentage_immediate,
{
}

} // verus!
