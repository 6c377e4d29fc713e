use crate::address::Address;
use crate::errors::ErrorCode;
use crate::state::beneficiary::Beneficiary;
use crate::state::disaster::DisasterEvent;
use crate::state::enums::DistributionType;
use crate::state::fund_pool::FundPool;
use crate::state::pool_registration::PoolRegistration;
use vstd::prelude::*;

verus! {

/// The weight a beneficiary gets in a pool of the given kind: one where all
/// count alike, else the family size or the damage severity.
pub open spec fn weight_for(kind: DistributionType, beneficiary: Beneficiary) -> u64 {
    match kind {
        DistributionType::Equal => 1,
        DistributionType::WeightedFamily => beneficiary.family_size as u64,
        DistributionType::WeightedDamage => beneficiary.damage_severity as u64,
        DistributionType::Milestone => 1,
    }
}

/// Whether a beneficiary meets the minimums a pool asks for, where it asks.
pub open spec fn meets_minimums(pool: FundPool, beneficiary: Beneficiary) -> bool {
    &&& (pool.minimum_family_size matches Some(least) ==> beneficiary.family_size >= least)
    &&& (pool.minimum_damage_severity matches Some(least) ==> beneficiary.damage_severity
        >= least)
}

/// Why registering a beneficiary for a pool is refused, if it is.
///
/// The pool must be active and still open for registration, the pair not
/// registered yet, the beneficiary verified, the caller the pool's authority,
/// and the beneficiary must meet the pool's minimums. The pool's running
/// totals must have room for the new entry.
pub open spec fn registration_refusal(
    pool: FundPool,
    beneficiary: Beneficiary,
    authority: Address,
    already_registered: bool,
) -> Option<ErrorCode> {
    if !pool.is_active {
        Some(ErrorCode::PoolNotActive)
    } else if pool.registration_locked {
        Some(ErrorCode::RegistrationPhaseLocked)
    } else if already_registered {
        Some(ErrorCode::BeneficiaryAlreadyRegisteredForPool)
    } else if !(beneficiary.verification_status is Verified) {
        Some(ErrorCode::BeneficiaryNotVerified)
    } else if pool.authority@ != authority@ {
        Some(ErrorCode::UnauthorizedModification)
    } else if !meets_minimums(pool, beneficiary) {
        Some(ErrorCode::InvalidEligibilityCriteria)
    } else if pool.total_allocation_weight + weight_for(pool.distribution_type, beneficiary)
        > u64::MAX {
        Some(ErrorCode::ArithmeticOverflow)
    } else if pool.registered_beneficiary_count == u32::MAX {
        Some(ErrorCode::ArithmeticOverflow)
    } else {
        None
    }
}

/// The entry that a registration writes: the pair, the weight as it is now,
/// the time, and no share allocated yet.
pub open spec fn new_registration(
    pool: FundPool,
    beneficiary: Beneficiary,
    pool_key: Address,
    beneficiary_key: Address,
    bump: u8,
    now: i64,
) -> PoolRegistration {
    PoolRegistration {
        pool: pool_key,
        beneficiary: beneficiary_key,
        allocation_weight: weight_for(pool.distribution_type, beneficiary),
        registered_at: now,
        is_distributed: false,
        bump,
    }
}

/// What a registration makes of the pool: the weight joins the total weight
/// and the count of registered beneficiaries goes up by one.
pub open spec fn pool_with_registration(pool: FundPool, weight: u64) -> FundPool {
    FundPool {
        total_allocation_weight: (pool.total_allocation_weight + weight) as u64,
        registered_beneficiary_count: (pool.registered_beneficiary_count + 1) as u32,
        ..pool
    }
}

/// Computes the weight of a beneficiary in a pool of the given kind.
pub fn allocation_weight(kind: &DistributionType, beneficiary: &Beneficiary) -> (weight: u64)
    ensures
        weight == weight_for(*kind, *beneficiary),
        weight <= u8::MAX,
{
    match kind {
        DistributionType::Equal => 1,
        DistributionType::WeightedFamily => beneficiary.family_size as u64,
        DistributionType::WeightedDamage => beneficiary.damage_severity as u64,
        DistributionType::Milestone => 1,
    }
}

/// Registers a verified beneficiary for a pool that is still open, and
/// returns the entry to store.
///
/// `already_registered` says whether an entry for this pair exists already.
/// Refused as `registration_refusal` says, and then nothing changes. Otherwise
/// the pool's total weight grows by exactly the weight written into the
/// entry.
pub fn register_beneficiary_for_pool_handler(
    pool: &mut FundPool,
    beneficiary: &Beneficiary,
    disaster: &mut DisasterEvent,
    authority: &Address,
    pool_key: &Address,
    beneficiary_key: &Address,
    already_registered: bool,
    bump: u8,
    now: i64,
) -> (res: Result<PoolRegistration, ErrorCode>)
    ensures
        res == match registration_refusal(
            *old(pool),
            *beneficiary,
            *authority,
            already_registered,
        ) {
            Some(refusal) => Err::<PoolRegistration, ErrorCode>(refusal),
            None => Ok(
                new_registration(*old(pool), *beneficiary, *pool_key, *beneficiary_key, bump, now),
            ),
        },
        res is Err ==> *final(pool) == *old(pool) && *final(disaster) == *old(disaster),
        res is Ok ==> *final(pool) == pool_with_registration(
            *old(pool),
            weight_for(old(pool).distribution_type, *beneficiary),
        ),
        res is Ok ==> *final(disaster) == (DisasterEvent { updated_at: now, ..*old(disaster) }),
{
    if !pool.is_active {
        return Err(ErrorCode::PoolNotActive);
    }
    if pool.registration_locked {
        return Err(ErrorCode::RegistrationPhaseLocked);
    }
    if already_registered {
        return Err(ErrorCode::BeneficiaryAlreadyRegisteredForPool);
    }
    if !beneficiary.is_verified() {
        return Err(ErrorCode::BeneficiaryNotVerified);
    }
    if !pool.authority.same_as(authority) {
        return Err(ErrorCode::UnauthorizedModification);
    }
    if let Some(least) = pool.minimum_family_size {
        if beneficiary.family_size < least {
            return Err(ErrorCode::InvalidEligibilityCriteria);
        }
    }
    if let Some(least) = pool.minimum_damage_severity {
        if beneficiary.damage_severity < least {
            return Err(ErrorCode::InvalidEligibilityCriteria);
        }
    }
    let weight = allocation_weight(&pool.distribution_type, beneficiary);
    let total_weight = match pool.total_allocation_weight.checked_add(weight) {
        Some(sum) => sum,
        None => {
            return Err(ErrorCode::ArithmeticOverflow);
        },
    };
    let registered = match pool.registered_beneficiary_count.checked_add(1) {
        Some(sum) => sum,
        None => {
            return Err(ErrorCode::ArithmeticOverflow);
        },
    };
    pool.total_allocation_weight = total_weight;
    pool.registered_beneficiary_count = registered;
    disaster.updated_at = now;
    Ok(
        PoolRegistration {
            pool: *pool_key,
            beneficiary: *beneficiary_key,
            allocation_weight: weight,
            registered_at: now,
            is_distributed: false,
            bump,
        },
    )
}

/// Why locking a pool's registration is refused, if it is: the pool must be
/// active, not locked yet, the caller its authority, and at least one
/// beneficiary registered.
pub open spec fn lock_refusal(pool: FundPool, authority: Address) -> Option<ErrorCode> {
    if !pool.is_active {
        Some(ErrorCode::PoolNotActive)
    } else if pool.registration_locked {
        Some(ErrorCode::RegistrationPhaseLocked)
    } else if pool.authority@ != authority@ {
        Some(ErrorCode::UnauthorizedModification)
    } else if pool.registered_beneficiary_count == 0 {
        Some(ErrorCode::NoBeneficiariesForDistribution)
    } else {
        None
    }
}

/// Closes a pool for registration, for good. The total weight and the count
/// of registered beneficiaries as they stand become the basis of every share.
pub fn lock_pool_registration_handler(pool: &mut FundPool, authority: &Address) -> (res: Result<
    (),
    ErrorCode,
>)
    ensures
        res == match lock_refusal(*old(pool), *authority) {
            Some(refusal) => Err::<(), ErrorCode>(refusal),
            None => Ok(()),
        },
        res is Err ==> *final(pool) == *old(pool),
        res is Ok ==> *final(pool) == (FundPool { registration_locked: true, ..*old(pool) }),
{
    if !pool.is_active {
        return Err(ErrorCode::PoolNotActive);
    }
    if pool.registration_locked {
        return Err(ErrorCode::RegistrationPhaseLocked);
    }
    if !pool.authority.same_as(authority) {
        return Err(ErrorCode::UnauthorizedModification);
    }
    if pool.registered_beneficiary_count == 0 {
        return Err(ErrorCode::NoBeneficiariesForDistribution);
    }
    pool.registration_locked = true;
    Ok(())
}

} // verus!
