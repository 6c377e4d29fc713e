use crate::address::Address;
use crate::errors::ErrorCode;
use crate::state::beneficiary::Beneficiary;
use crate::state::disaster::DisasterEvent;
use crate::state::distribution::Distribution;
use crate::state::fund_pool::FundPool;
use crate::state::pool_registration::PoolRegistration;
use crate::state::token_account::TokenAccountInfo;
use vstd::prelude::*;

verus! {

/// The share of a pool that one registration stands for, rounded down:
/// the deposits times the weight over the total weight. Where the pool has no
/// weight at all, the deposits are split evenly over the registered
/// beneficiaries, or not split where none is registered.
pub open spec fn share_of(
    total_deposited: u64,
    weight: u64,
    total_weight: u64,
    registered: u32,
) -> int {
    if total_weight > 0 {
        (total_deposited * weight) / (total_weight as int)
    } else if registered > 0 {
        (total_deposited as int) / (registered as int)
    } else {
        total_deposited as int
    }
}

/// The part of a share that is payable at once, rounded down.
pub open spec fn immediate_part(share: u64, percentage: u8) -> int {
    (share * percentage) / 100
}

/// Computes the share of a pool that a registration of the given weight
/// stands for. Fails with `ArithmeticOverflow` exactly when the share does
/// not fit in 64 bits.
pub fn calculate_share(total_deposited: u64, weight: u64, total_weight: u64, registered: u32) -> (res:
    Result<u64, ErrorCode>)
    ensures
        res == if share_of(total_deposited, weight, total_weight, registered) <= u64::MAX {
            Ok::<u64, ErrorCode>(
                share_of(total_deposited, weight, total_weight, registered) as u64,
            )
        } else {
            Err(ErrorCode::ArithmeticOverflow)
        },
{
    if total_weight > 0 {
        assert(total_deposited * weight <= u64::MAX * u64::MAX) by (nonlinear_arith)
            requires
                total_deposited <= u64::MAX,
                weight <= u64::MAX,
        ;
        let numerator: u128 = (total_deposited as u128) * (weight as u128);
        let quotient: u128 = numerator / (total_weight as u128);
        if quotient > u64::MAX as u128 {
            Err(ErrorCode::ArithmeticOverflow)
        } else {
            Ok(quotient as u64)
        }
    } else if registered > 0 {
        Ok(total_deposited / (registered as u64))
    } else {
        Ok(total_deposited)
    }
}

/// Splits a share into the part payable at once and the locked rest.
///
/// The rest is what is left of the share, never a percentage of its own, so
/// the two parts add up to the share exactly. Fails with `ArithmeticOverflow`
/// when the immediate part does not fit in 64 bits, and with
/// `ArithmeticUnderflow` when it fits but is more than the share; neither
/// happens with a percentage of at most one hundred.
pub fn split_share(share: u64, percentage_immediate: u8) -> (res: Result<(u64, u64), ErrorCode>)
    ensures
        res == if immediate_part(share, percentage_immediate) > u64::MAX {
            Err::<(u64, u64), ErrorCode>(ErrorCode::ArithmeticOverflow)
        } else if immediate_part(share, percentage_immediate) > share {
            Err(ErrorCode::ArithmeticUnderflow)
        } else {
            Ok(
                (
                    immediate_part(share, percentage_immediate) as u64,
                    (share - immediate_part(share, percentage_immediate)) as u64,
                ),
            )
        },
        percentage_immediate <= 100 ==> res is Ok,
        res matches Ok(parts) ==> parts.0 + parts.1 == share,
{
    assert(share * percentage_immediate <= u64::MAX * u8::MAX) by (nonlinear_arith)
        requires
            share <= u64::MAX,
            percentage_immediate <= u8::MAX,
    ;
    assert(percentage_immediate <= 100 ==> (share * percentage_immediate) / 100 <= share)
        by (nonlinear_arith);
    let scaled: u128 = (share as u128) * (percentage_immediate as u128);
    let immediate: u128 = scaled / 100;
    if immediate > u64::MAX as u128 {
        return Err(ErrorCode::ArithmeticOverflow);
    }
    let immediate = immediate as u64;
    if immediate > share {
        return Err(ErrorCode::ArithmeticUnderflow);
    }
    Ok((immediate, share - immediate))
}

/// The share that the pool's books give a registration of this weight.
pub open spec fn pool_share(pool: FundPool, weight: u64) -> int {
    share_of(
        pool.total_deposited,
        weight,
        pool.total_allocation_weight,
        pool.registered_beneficiary_count,
    )
}

/// Why the arithmetic of an allocation fails, if it does.
///
/// A share or an immediate part beyond 64 bits, a weight beyond 16 bits, an
/// unlock time or a claim deadline beyond the range of time, and books
/// without room for the share all give `ArithmeticOverflow`; an immediate
/// part larger than the share gives `ArithmeticUnderflow`.
pub open spec fn allocation_failure(pool: FundPool, weight: u64, now: i64) -> Option<ErrorCode> {
    let share = pool_share(pool, weight);
    let immediate = immediate_part(share as u64, pool.distribution_percentage_immediate);
    if share > u64::MAX {
        Some(ErrorCode::ArithmeticOverflow)
    } else if immediate > u64::MAX {
        Some(ErrorCode::ArithmeticOverflow)
    } else if immediate > share {
        Some(ErrorCode::ArithmeticUnderflow)
    } else if share - immediate > 0 && pool.time_lock_duration is Some && !(i64::MIN <= now
        + pool.time_lock_duration->0 <= i64::MAX) {
        Some(ErrorCode::ArithmeticOverflow)
    } else if now + Distribution::CLAIM_WINDOW > i64::MAX {
        Some(ErrorCode::ArithmeticOverflow)
    } else if weight > u16::MAX {
        Some(ErrorCode::ArithmeticOverflow)
    } else if pool.total_distributed + share > u64::MAX {
        Some(ErrorCode::ArithmeticOverflow)
    } else if pool.beneficiary_count == u32::MAX {
        Some(ErrorCode::ArithmeticOverflow)
    } else {
        None
    }
}

/// Why allocating a share is refused, if it is.
///
/// The pool must be active and not completed, the beneficiary verified, the
/// caller the pool's authority, the registration the one of this pool and
/// this beneficiary and without a share yet, and the pool locked. Then the
/// arithmetic must work out, as `allocation_failure` says.
pub open spec fn distribution_refusal(
    pool: FundPool,
    registration: PoolRegistration,
    beneficiary: Beneficiary,
    authority: Address,
    pool_key: Address,
    beneficiary_key: Address,
    now: i64,
) -> Option<ErrorCode> {
    if !pool.is_active {
        Some(ErrorCode::PoolNotActive)
    } else if pool.is_distributed {
        Some(ErrorCode::DistributionAlreadyCompleted)
    } else if !(beneficiary.verification_status is Verified) {
        Some(ErrorCode::BeneficiaryNotVerified)
    } else if pool.authority@ != authority@ {
        Some(ErrorCode::UnauthorizedModification)
    } else if registration.pool@ != pool_key@ || registration.beneficiary@ != beneficiary_key@ {
        Some(ErrorCode::BeneficiaryNotRegisteredForPool)
    } else if registration.is_distributed {
        Some(ErrorCode::DistributionAlreadyCompleted)
    } else if !pool.registration_locked {
        Some(ErrorCode::PoolRegistrationNotLocked)
    } else {
        allocation_failure(pool, registration.allocation_weight, now)
    }
}

/// Whether `share` is the record that allocating from `pool` to a
/// registration of weight `weight` at time `now` writes.
///
/// The amount is the pool's share for the weight; the immediate part is the
/// pool's percentage of it and the locked part is the rest. The locked part
/// unlocks after the pool's lock duration where there is one and anything is
/// locked, else at once. The claim deadline is `Distribution::CLAIM_WINDOW`
/// after `now`. Nothing is paid yet; a share of zero is closed from the start.
pub open spec fn is_new_share(
    share: Distribution,
    pool: FundPool,
    weight: u64,
    pool_key: Address,
    beneficiary_key: Address,
    bump: u8,
    now: i64,
) -> bool {
    let amount = pool_share(pool, weight) as u64;
    let immediate = immediate_part(amount, pool.distribution_percentage_immediate) as u64;
    let locked = (amount - immediate) as u64;
    &&& share.notes@ == Seq::<char>::empty()
    &&& share == (Distribution {
        beneficiary: beneficiary_key,
        pool: pool_key,
        amount_allocated: amount,
        amount_immediate: immediate,
        amount_locked: locked,
        amount_claimed: 0,
        unlock_time: if locked > 0 && pool.time_lock_duration is Some {
            Some((now + pool.time_lock_duration->0) as i64)
        } else {
            None
        },
        created_at: now,
        claimed_at: None,
        locked_claimed_at: None,
        is_fully_claimed: amount == 0,
        allocation_weight: weight as u16,
        notes: share.notes,
        bump,
        claim_deadline: Some((now + Distribution::CLAIM_WINDOW) as i64),
        is_expired: false,
        expired_at: None,
    })
}

/// What an allocation makes of the pool's books: the share joins the total
/// distributed, and one more beneficiary has a share.
pub open spec fn pool_with_share(pool: FundPool, amount: u64) -> FundPool {
    FundPool {
        total_distributed: (pool.total_distributed + amount) as u64,
        beneficiary_count: (pool.beneficiary_count + 1) as u32,
        ..pool
    }
}

/// Allocates to a registered beneficiary its share of a locked pool, once,
/// and returns the record of the share.
///
/// Refused as `distribution_refusal` says, and then nothing changes.
/// Otherwise the record is as `is_new_share` says, the registration is marked
/// as served so that it cannot be served again, and the pool's books take the
/// share in.
pub fn handler(
    pool: &mut FundPool,
    registration: &mut PoolRegistration,
    beneficiary: &Beneficiary,
    disaster: &mut DisasterEvent,
    authority: &Address,
    pool_key: &Address,
    beneficiary_key: &Address,
    bump: u8,
    now: i64,
) -> (res: Result<Distribution, ErrorCode>)
    ensures
        res is Err <==> distribution_refusal(
            *old(pool),
            *old(registration),
            *beneficiary,
            *authority,
            *pool_key,
            *beneficiary_key,
            now,
        ) is Some,
        res matches Err(refusal) ==> Some(refusal) == distribution_refusal(
            *old(pool),
            *old(registration),
            *beneficiary,
            *authority,
            *pool_key,
            *beneficiary_key,
            now,
        ),
        res is Err ==> *final(pool) == *old(pool),
        res is Err ==> *final(registration) == *old(registration),
        res is Err ==> *final(disaster) == *old(disaster),
        res matches Ok(share) ==> is_new_share(
            share,
            *old(pool),
            old(registration).allocation_weight,
            *pool_key,
            *beneficiary_key,
            bump,
            now,
        ),
        res matches Ok(share) ==> share.well_formed(),
        res matches Ok(share) ==> *final(pool) == pool_with_share(
            *old(pool),
            share.amount_allocated,
        ),
        res is Ok ==> *final(registration) == (PoolRegistration {
            is_distributed: true,
            ..*old(registration)
        }),
        res is Ok ==> *final(disaster) == (DisasterEvent { updated_at: now, ..*old(disaster) }),
{
    if !pool.is_active {
        return Err(ErrorCode::PoolNotActive);
    }
    if pool.is_distributed {
        return Err(ErrorCode::DistributionAlreadyCompleted);
    }
    if !beneficiary.is_verified() {
        return Err(ErrorCode::BeneficiaryNotVerified);
    }
    if !pool.authority.same_as(authority) {
        return Err(ErrorCode::UnauthorizedModification);
    }
    if !registration.pool.same_as(pool_key) || !registration.beneficiary.same_as(beneficiary_key) {
        return Err(ErrorCode::BeneficiaryNotRegisteredForPool);
    }
    if registration.is_distributed {
        return Err(ErrorCode::DistributionAlreadyCompleted);
    }
    if !pool.registration_locked {
        return Err(ErrorCode::PoolRegistrationNotLocked);
    }
    let weight = registration.allocation_weight;
    let amount = match calculate_share(
        pool.total_deposited,
        weight,
        pool.total_allocation_weight,
        pool.registered_beneficiary_count,
    ) {
        Ok(amount) => amount,
        Err(failure) => {
            return Err(failure);
        },
    };
    let (immediate, locked) = match split_share(amount, pool.distribution_percentage_immediate) {
        Ok(parts) => parts,
        Err(failure) => {
            return Err(failure);
        },
    };
    let unlock_time = match pool.time_lock_duration {
        Some(duration) if locked > 0 => {
            match now.checked_add(duration) {
                Some(time) => Some(time),
                None => {
                    return Err(ErrorCode::ArithmeticOverflow);
                },
            }
        },
        _ => None,
    };
    let claim_deadline = match now.checked_add(Distribution::CLAIM_WINDOW) {
        Some(time) => time,
        None => {
            return Err(ErrorCode::ArithmeticOverflow);
        },
    };
    if weight > u16::MAX as u64 {
        return Err(ErrorCode::ArithmeticOverflow);
    }
    let total_distributed = match pool.total_distributed.checked_add(amount) {
        Some(sum) => sum,
        None => {
            return Err(ErrorCode::ArithmeticOverflow);
        },
    };
    let beneficiary_count = match pool.beneficiary_count.checked_add(1) {
        Some(sum) => sum,
        None => {
            return Err(ErrorCode::ArithmeticOverflow);
        },
    };
    pool.total_distributed = total_distributed;
    pool.beneficiary_count = beneficiary_count;
    registration.is_distributed = true;
    disaster.updated_at = now;
    Ok(
        Distribution {
            beneficiary: *beneficiary_key,
            pool: *pool_key,
            amount_allocated: amount,
            amount_immediate: immediate,
            amount_locked: locked,
            amount_claimed: 0,
            unlock_time,
            created_at: now,
            claimed_at: None,
            locked_claimed_at: None,
            is_fully_claimed: amount == 0,
            allocation_weight: weight as u16,
            notes: String::new(),
            bump,
            claim_deadline: Some(claim_deadline),
            is_expired: false,
            expired_at: None,
        },
    )
}

/// What of the immediate part is due: all of it until it is paid.
pub open spec fn immediate_due(share: Distribution) -> int {
    if share.claimed_at is None && share.amount_immediate > 0 {
        share.amount_immediate as int
    } else {
        0
    }
}

/// What of the locked part is due at `now`: nothing before the unlock time,
/// then all of it until it is paid.
pub open spec fn locked_due(share: Distribution, now: i64) -> int {
    if share.locked_claimed_at is None && share.amount_locked > 0 && share.unlocked_at(now) {
        share.amount_locked as int
    } else {
        0
    }
}

/// What a claim at `now` pays: every part that is due and not paid yet.
pub open spec fn payable(share: Distribution, now: i64) -> int {
    immediate_due(share) + locked_due(share, now)
}

/// Whether a share has a locked part that is unpaid and must still wait for
/// its unlock time at `now`.
pub open spec fn awaits_unlock(share: Distribution, now: i64) -> bool {
    share.locked_claimed_at is None && share.amount_locked > 0 && !share.unlocked_at(now)
}

/// Why a claim is refused, if it is.
///
/// The share must be the beneficiary's, the pool's token account the one the
/// pool names, the claimant the beneficiary's own authority, and the
/// receiving token account the claimant's and of the pool's token.
///
/// A share that is closed gives `DistributionAlreadyClaimed`: nothing will
/// ever be paid on it again. A share of which nothing is due now because its
/// locked part must wait for the unlock time gives `DistributionLocked`: the
/// claim is to be made again later. The amounts must stay within 64 bits.
pub open spec fn claim_refusal(
    share: Distribution,
    pool: FundPool,
    beneficiary: Beneficiary,
    beneficiary_key: Address,
    beneficiary_authority: Address,
    pool_token_account: TokenAccountInfo,
    beneficiary_token_account: TokenAccountInfo,
    now: i64,
) -> Option<ErrorCode> {
    if share.beneficiary@ != beneficiary_key@ {
        Some(ErrorCode::UnauthorizedBeneficiary)
    } else if pool_token_account.key@ != pool.token_account@ {
        Some(ErrorCode::TokenAccountMismatch)
    } else if beneficiary.authority@ != beneficiary_authority@ {
        Some(ErrorCode::UnauthorizedBeneficiary)
    } else if beneficiary_token_account.owner@ != beneficiary_authority@ {
        Some(ErrorCode::InvalidAccountOwner)
    } else if beneficiary_token_account.mint@ != pool.token_mint@ {
        Some(ErrorCode::InvalidTokenMint)
    } else if share.is_fully_claimed {
        Some(ErrorCode::DistributionAlreadyClaimed)
    } else if payable(share, now) > u64::MAX {
        Some(ErrorCode::ArithmeticOverflow)
    } else if payable(share, now) == 0 && awaits_unlock(share, now) {
        Some(ErrorCode::DistributionLocked)
    } else if payable(share, now) == 0 {
        Some(ErrorCode::DistributionAlreadyClaimed)
    } else if share.amount_claimed + payable(share, now) > u64::MAX {
        Some(ErrorCode::ArithmeticOverflow)
    } else if pool.total_claimed + payable(share, now) > u64::MAX {
        Some(ErrorCode::ArithmeticOverflow)
    } else if beneficiary.total_received + payable(share, now) > u64::MAX {
        Some(ErrorCode::ArithmeticOverflow)
    } else {
        None
    }
}

/// What an accepted claim at `now` makes of a share: each part that was due
/// is marked paid at `now`, the amount claimed grows by what was due, and the
/// share is closed once the amount claimed has reached the amount allocated.
pub open spec fn claimed(share: Distribution, now: i64) -> Distribution {
    Distribution {
        claimed_at: if immediate_due(share) > 0 {
            Some(now)
        } else {
            share.claimed_at
        },
        locked_claimed_at: if locked_due(share, now) > 0 {
            Some(now)
        } else {
            share.locked_claimed_at
        },
        amount_claimed: (share.amount_claimed + payable(share, now)) as u64,
        is_fully_claimed: share.amount_claimed + payable(share, now) >= share.amount_allocated,
        ..share
    }
}

/// Pays out what is due of a share, and returns the amount to move from the
/// pool's custodial account to the beneficiary's.
///
/// Refused as `claim_refusal` says, and then nothing changes: with
/// `DistributionLocked` where the claim only has to wait for the unlock time,
/// with `DistributionAlreadyClaimed` where the share is closed. Otherwise the
/// amount is `payable`: positive, and never a part that was paid before. The
/// share is then as `claimed` says, and the pool's total claimed and the
/// beneficiary's total received grow by the amount.
pub fn claim_distribution_handler(
    distribution: &mut Distribution,
    pool: &mut FundPool,
    beneficiary: &mut Beneficiary,
    beneficiary_key: &Address,
    beneficiary_authority: &Address,
    pool_token_account: &TokenAccountInfo,
    beneficiary_token_account: &TokenAccountInfo,
    now: i64,
) -> (res: Result<u64, ErrorCode>)
    ensures
        res == match claim_refusal(
            *old(distribution),
            *old(pool),
            *old(beneficiary),
            *beneficiary_key,
            *beneficiary_authority,
            *pool_token_account,
            *beneficiary_token_account,
            now,
        ) {
            Some(refusal) => Err::<u64, ErrorCode>(refusal),
            None => Ok(payable(*old(distribution), now) as u64),
        },
        res is Err ==> *final(distribution) == *old(distribution) && *final(pool) == *old(pool)
            && *final(beneficiary) == *old(beneficiary),
        res matches Ok(amount) ==> amount > 0 && *final(distribution) == claimed(
            *old(distribution),
            now,
        ) && *final(pool) == (FundPool {
            total_claimed: (old(pool).total_claimed + amount) as u64,
            ..*old(pool)
        }) && *final(beneficiary) == (Beneficiary {
            total_received: (old(beneficiary).total_received + amount) as u64,
            ..*old(beneficiary)
        }),
        final(distribution).amount_claimed >= old(distribution).amount_claimed,
        old(distribution).well_formed() ==> final(distribution).well_formed(),
{
    if !distribution.beneficiary.same_as(beneficiary_key) {
        return Err(ErrorCode::UnauthorizedBeneficiary);
    }
    if !pool_token_account.key.same_as(&pool.token_account) {
        return Err(ErrorCode::TokenAccountMismatch);
    }
    if !beneficiary.authority.same_as(beneficiary_authority) {
        return Err(ErrorCode::UnauthorizedBeneficiary);
    }
    if !beneficiary_token_account.owner.same_as(beneficiary_authority) {
        return Err(ErrorCode::InvalidAccountOwner);
    }
    if !beneficiary_token_account.mint.same_as(&pool.token_mint) {
        return Err(ErrorCode::InvalidTokenMint);
    }
    if distribution.is_fully_claimed {
        return Err(ErrorCode::DistributionAlreadyClaimed);
    }
    let pay_immediate = distribution.claimed_at.is_none() && distribution.amount_immediate > 0;
    let unlocked = match distribution.unlock_time {
        Some(unlock_time) => now >= unlock_time,
        None => true,
    };
    let pay_locked = distribution.locked_claimed_at.is_none() && distribution.amount_locked > 0
        && unlocked;
    let mut amount: u64 = 0;
    if pay_immediate {
        amount = distribution.amount_immediate;
    }
    if pay_locked {
        amount = match amount.checked_add(distribution.amount_locked) {
            Some(sum) => sum,
            None => {
                return Err(ErrorCode::ArithmeticOverflow);
            },
        };
    }
    if amount == 0 {
        if distribution.locked_claimed_at.is_none() && distribution.amount_locked > 0 && !unlocked {
            return Err(ErrorCode::DistributionLocked);
        }
        return Err(ErrorCode::DistributionAlreadyClaimed);
    }
    let amount_claimed = match distribution.amount_claimed.checked_add(amount) {
        Some(sum) => sum,
        None => {
            return Err(ErrorCode::ArithmeticOverflow);
        },
    };
    let total_claimed = match pool.total_claimed.checked_add(amount) {
        Some(sum) => sum,
        None => {
            return Err(ErrorCode::ArithmeticOverflow);
        },
    };
    let total_received = match beneficiary.total_received.checked_add(amount) {
        Some(sum) => sum,
        None => {
            return Err(ErrorCode::ArithmeticOverflow);
        },
    };
    if pay_immediate {
        distribution.claimed_at = Some(now);
    }
    if pay_locked {
        distribution.locked_claimed_at = Some(now);
    }
    distribution.amount_claimed = amount_claimed;
    if amount_claimed >= distribution.amount_allocated {
        distribution.is_fully_claimed = true;
    }
    pool.total_claimed = total_claimed;
    beneficiary.total_received = total_received;
    Ok(amount)
}

/// Claiming many shares in one call is not offered: claim them one by one.
pub fn batch_claim_distributions_handler() -> (res: Result<(), ErrorCode>)
    ensures
        res == Err::<(), ErrorCode>(ErrorCode::NotImplemented),
{
    Err(ErrorCode::NotImplemented)
}

/// Why taking back a share is refused, if it is.
///
/// The share must be one of this pool, the caller the pool's authority, the
/// share not taken back before, nothing of it ever paid, and its claim
/// deadline set and passed. The pool's total distributed must hold the share.
pub open spec fn reclaim_refusal(
    share: Distribution,
    pool: FundPool,
    authority: Address,
    pool_key: Address,
    now: i64,
) -> Option<ErrorCode> {
    if share.pool@ != pool_key@ {
        Some(ErrorCode::AccountDataMismatch)
    } else if pool.authority@ != authority@ {
        Some(ErrorCode::UnauthorizedModification)
    } else if share.is_expired {
        Some(ErrorCode::DistributionAlreadyExpired)
    } else if share.amount_claimed != 0 {
        Some(ErrorCode::DistributionPartiallyClaimed)
    } else if !(share.claim_deadline matches Some(deadline) && now > deadline) {
        Some(ErrorCode::DistributionNotExpired)
    } else if pool.total_distributed < share.amount_allocated {
        Some(ErrorCode::ArithmeticUnderflow)
    } else {
        None
    }
}

/// What taking it back makes of a share: expired at `now` and closed for
/// good.
pub open spec fn reclaimed(share: Distribution, now: i64) -> Distribution {
    Distribution { is_expired: true, expired_at: Some(now), is_fully_claimed: true, ..share }
}

/// Takes an untouched share back into the pool after its claim deadline.
///
/// Refused as `reclaim_refusal` says, and then nothing changes. Otherwise the
/// share is expired and closed, and the pool's total distributed goes down by
/// the amount that was allocated. No value moves: it never left the pool.
pub fn reclaim_expired_distribution_handler(
    distribution: &mut Distribution,
    pool: &mut FundPool,
    authority: &Address,
    pool_key: &Address,
    now: i64,
) -> (res: Result<(), ErrorCode>)
    ensures
        res == match reclaim_refusal(*old(distribution), *old(pool), *authority, *pool_key, now) {
            Some(refusal) => Err::<(), ErrorCode>(refusal),
            None => Ok(()),
        },
        res is Err ==> *final(distribution) == *old(distribution) && *final(pool) == *old(pool),
        res is Ok ==> *final(distribution) == reclaimed(*old(distribution), now) && *final(pool)
            == (FundPool {
            total_distributed: (old(pool).total_distributed - old(distribution).amount_allocated) as u64,
            ..*old(pool)
        }),
        old(distribution).well_formed() ==> final(distribution).well_formed(),
{
    if !distribution.pool.same_as(pool_key) {
        return Err(ErrorCode::AccountDataMismatch);
    }
    if !pool.authority.same_as(authority) {
        return Err(ErrorCode::UnauthorizedModification);
    }
    if distribution.is_expired {
        return Err(ErrorCode::DistributionAlreadyExpired);
    }
    if distribution.amount_claimed != 0 {
        return Err(ErrorCode::DistributionPartiallyClaimed);
    }
    match distribution.claim_deadline {
        Some(deadline) => {
            if now <= deadline {
                return Err(ErrorCode::DistributionNotExpired);
            }
        },
        None => {
            return Err(ErrorCode::DistributionNotExpired);
        },
    }
    if pool.total_distributed < distribution.amount_allocated {
        return Err(ErrorCode::ArithmeticUnderflow);
    }
    distribution.is_expired = true;
    distribution.expired_at = Some(now);
    distribution.is_fully_claimed = true;
    pool.total_distributed = pool.total_distributed - distribution.amount_allocated;
    Ok(())
}

} // verus!
