use crate::address::Address;
use crate::errors::ErrorCode;
use crate::instructions::distribution::{
    claim_refusal, claimed, distribution_refusal, is_new_share, payable, pool_with_share,
    reclaim_refusal, reclaimed,
};
use crate::instructions::fund_pool::{pool_updated, UpdatePoolConfigParams};
use crate::instructions::pool_registration::{
    lock_refusal, meets_minimums, new_registration, pool_with_registration, registration_refusal,
    weight_for,
};
use crate::state::beneficiary::Beneficiary;
use crate::state::distribution::Distribution;
use crate::state::fund_pool::FundPool;
use crate::state::pool_registration::PoolRegistration;
use crate::state::token_account::TokenAccountInfo;
use vstd::prelude::*;

verus! {

/// One line of a pool's ledger: a registration, and the share allocated to
/// it, once there is one.
pub struct LedgerEntry {
    pub registration: PoolRegistration,
    pub share: Option<Distribution>,
}

/// A pool seen together with all its registrations and shares. The records
/// themselves are stored one by one; the ledger is the whole that the rules on
/// a pool's books speak of.
pub struct PoolLedger {
    /// The address of the pool's own record.
    pub key: Address,
    pub pool: FundPool,
    pub entries: Seq<LedgerEntry>,
}

/// Whether one of the entries is the registration of the beneficiary whose
/// record is at `beneficiary_key`.
pub open spec fn holds_beneficiary(entries: Seq<LedgerEntry>, beneficiary_key: Address) -> bool {
    exists|i: int|
        0 <= i < entries.len() && (#[trigger] entries[i]).registration.beneficiary@
            == beneficiary_key@
}

/// Whether every entry is a registration for the pool at `pool_key`.
pub open spec fn all_of_pool(entries: Seq<LedgerEntry>, pool_key: Address) -> bool {
    forall|i: int| 0 <= i < entries.len() ==> (#[trigger] entries[i]).registration.pool@ == pool_key@
}

/// Whether no beneficiary has two entries.
pub open spec fn one_entry_each(entries: Seq<LedgerEntry>) -> bool {
    forall|i: int, j: int|
        0 <= i < j < entries.len() ==> (#[trigger] entries[i]).registration.beneficiary@ != (
        #[trigger] entries[j]).registration.beneficiary@
}

/// The sum of `measure` over all entries.
pub open spec fn sum_over(entries: Seq<LedgerEntry>, measure: spec_fn(LedgerEntry) -> int) -> int
    decreases entries.len(),
{
    if entries.len() == 0 {
        0
    } else {
        sum_over(entries.drop_last(), measure) + measure(entries.last())
    }
}

/// The weight of an entry.
pub open spec fn weight_of(entry: LedgerEntry) -> int {
    entry.registration.allocation_weight as int
}

/// What an entry holds of the pool's total distributed: its share, unless
/// there is none or it was taken back.
pub open spec fn outstanding_of(entry: LedgerEntry) -> int {
    match entry.share {
        Some(share) => if share.is_expired {
            0
        } else {
            share.amount_allocated as int
        },
        None => 0,
    }
}

/// What was paid out on an entry.
pub open spec fn paid_of(entry: LedgerEntry) -> int {
    match entry.share {
        Some(share) => share.amount_claimed as int,
        None => 0,
    }
}

/// One for an entry that has a share, none for one that has not.
pub open spec fn served_of(entry: LedgerEntry) -> int {
    if entry.share is Some {
        1
    } else {
        0
    }
}

/// How many entries have a share.
pub open spec fn total_served(entries: Seq<LedgerEntry>) -> int {
    sum_over(entries, |entry: LedgerEntry| served_of(entry))
}

/// The sum of the weights of all registrations.
pub open spec fn total_weight(entries: Seq<LedgerEntry>) -> int {
    sum_over(entries, |entry: LedgerEntry| weight_of(entry))
}

/// The sum of all shares that were allocated and not taken back.
pub open spec fn total_outstanding(entries: Seq<LedgerEntry>) -> int {
    sum_over(entries, |entry: LedgerEntry| outstanding_of(entry))
}

/// The sum of all that was paid out.
pub open spec fn total_paid(entries: Seq<LedgerEntry>) -> int {
    sum_over(entries, |entry: LedgerEntry| paid_of(entry))
}

/// Whether `amount` is no more than the part of the deposits that a weight
/// stands for: by weight where the pool has any, else by head.
pub open spec fn within_fair_part(pool: FundPool, weight: u64, amount: u64) -> bool {
    if pool.total_allocation_weight > 0 {
        amount * pool.total_allocation_weight <= pool.total_deposited * weight
    } else {
        amount * pool.registered_beneficiary_count <= pool.total_deposited
    }
}

/// What holds of each line of a ledger: it is marked as served exactly when it
/// has a share, and the share is well formed and within the fair part of its
/// weight.
pub open spec fn entry_consistent(pool: FundPool, entry: LedgerEntry) -> bool {
    &&& entry.registration.is_distributed <==> entry.share is Some
    &&& entry.share matches Some(share) ==> share.well_formed() && within_fair_part(
        pool,
        entry.registration.allocation_weight,
        share.amount_allocated,
    )
}

impl PoolLedger {
    /// Whether the pool's books are those of its entries: the count and the
    /// total weight are those of the registrations, the total distributed is
    /// the sum of the shares not taken back, the total claimed is the sum of
    /// what was paid, the count of beneficiaries is the number of shares, no
    /// share exists before the lock, and every line is consistent. Every
    /// entry is a registration for this pool, and no beneficiary has two.
    pub open spec fn consistent(&self) -> bool {
        &&& all_of_pool(self.entries, self.key)
        &&& one_entry_each(self.entries)
        &&& self.entries.len() == self.pool.registered_beneficiary_count
        &&& total_weight(self.entries) == self.pool.total_allocation_weight
        &&& total_outstanding(self.entries) == self.pool.total_distributed
        &&& total_paid(self.entries) == self.pool.total_claimed
        &&& total_served(self.entries) == self.pool.beneficiary_count
        &&& (!self.pool.registration_locked ==> forall|i: int|
            0 <= i < self.entries.len() ==> (#[trigger] self.entries[i]).share is None)
        &&& forall|i: int|
            0 <= i < self.entries.len() ==> entry_consistent(self.pool, #[trigger] self.entries[i])
    }

    /// A registration for this pool is accepted and its entry joins the
    /// ledger. Whether the beneficiary is registered already is what the
    /// entries say.
    pub open spec fn registers(
        &self,
        next: PoolLedger,
        beneficiary: Beneficiary,
        authority: Address,
        pool_key: Address,
        beneficiary_key: Address,
        bump: u8,
        now: i64,
    ) -> bool {
        &&& pool_key@ == self.key@
        &&& registration_refusal(
            self.pool,
            beneficiary,
            authority,
            holds_beneficiary(self.entries, beneficiary_key),
        ) is None
        &&& next.key == self.key
        &&& next.pool == pool_with_registration(
            self.pool,
            weight_for(self.pool.distribution_type, beneficiary),
        )
        &&& next.entries == self.entries.push(
            LedgerEntry {
                registration: new_registration(
                    self.pool,
                    beneficiary,
                    pool_key,
                    beneficiary_key,
                    bump,
                    now,
                ),
                share: None,
            },
        )
    }

    /// The pool is locked; the entries stay as they are.
    pub open spec fn locks(&self, next: PoolLedger, authority: Address) -> bool {
        &&& lock_refusal(self.pool, authority) is None
        &&& next.key == self.key
        &&& next.pool == (FundPool { registration_locked: true, ..self.pool })
        &&& next.entries == self.entries
    }

    /// The entry at `index` is allocated its share.
    pub open spec fn distributes(
        &self,
        next: PoolLedger,
        index: int,
        share: Distribution,
        beneficiary: Beneficiary,
        authority: Address,
        pool_key: Address,
        beneficiary_key: Address,
        bump: u8,
        now: i64,
    ) -> bool {
        &&& 0 <= index < self.entries.len()
        &&& distribution_refusal(
            self.pool,
            self.entries[index].registration,
            beneficiary,
            authority,
            pool_key,
            beneficiary_key,
            now,
        ) is None
        &&& is_new_share(
            share,
            self.pool,
            self.entries[index].registration.allocation_weight,
            pool_key,
            beneficiary_key,
            bump,
            now,
        )
        &&& next.key == self.key
        &&& next.pool == pool_with_share(self.pool, share.amount_allocated)
        &&& next.entries == self.entries.update(
            index,
            LedgerEntry {
                registration: PoolRegistration {
                    is_distributed: true,
                    ..self.entries[index].registration
                },
                share: Some(share),
            },
        )
    }

    /// A claim on the share at `index` is paid.
    pub open spec fn pays(
        &self,
        next: PoolLedger,
        index: int,
        beneficiary: Beneficiary,
        beneficiary_key: Address,
        beneficiary_authority: Address,
        pool_token_account: TokenAccountInfo,
        beneficiary_token_account: TokenAccountInfo,
        now: i64,
    ) -> bool {
        &&& 0 <= index < self.entries.len()
        &&& self.entries[index].share matches Some(share)
        &&& claim_refusal(
            share,
            self.pool,
            beneficiary,
            beneficiary_key,
            beneficiary_authority,
            pool_token_account,
            beneficiary_token_account,
            now,
        ) is None
        &&& next.key == self.key
        &&& next.pool == (FundPool {
            total_claimed: (self.pool.total_claimed + payable(share, now)) as u64,
            ..self.pool
        })
        &&& next.entries == self.entries.update(
            index,
            LedgerEntry { share: Some(claimed(share, now)), ..self.entries[index] },
        )
    }

    /// The share at `index` is taken back.
    pub open spec fn reclaims(
        &self,
        next: PoolLedger,
        index: int,
        authority: Address,
        pool_key: Address,
        now: i64,
    ) -> bool {
        &&& 0 <= index < self.entries.len()
        &&& self.entries[index].share matches Some(share)
        &&& reclaim_refusal(share, self.pool, authority, pool_key, now) is None
        &&& next.key == self.key
        &&& next.pool == (FundPool {
            total_distributed: (self.pool.total_distributed - share.amount_allocated) as u64,
            ..self.pool
        })
        &&& next.entries == self.entries.update(
            index,
            LedgerEntry { share: Some(reclaimed(share, now)), ..self.entries[index] },
        )
    }

    /// The pool changes in a way that leaves its allocation books alone: the
    /// deposits may grow, and nothing else that the ledger rests on moves.
    pub open spec fn keeps_books(&self, next: PoolLedger) -> bool {
        &&& next.key == self.key
        &&& next.entries == self.entries
        &&& next.pool.total_deposited >= self.pool.total_deposited
        &&& next.pool.total_distributed == self.pool.total_distributed
        &&& next.pool.total_claimed == self.pool.total_claimed
        &&& next.pool.beneficiary_count == self.pool.beneficiary_count
        &&& next.pool.total_allocation_weight == self.pool.total_allocation_weight
        &&& next.pool.registered_beneficiary_count == self.pool.registered_beneficiary_count
        &&& next.pool.registration_locked == self.pool.registration_locked
    }
}

/// One thing that happens to a pool and its entries.
pub enum LedgerEvent {
    /// A beneficiary is registered.
    Registered {
        beneficiary: Beneficiary,
        authority: Address,
        pool_key: Address,
        beneficiary_key: Address,
        bump: u8,
        now: i64,
    },
    /// The pool is locked.
    Locked { authority: Address },
    /// The entry at `index` is allocated `share`.
    Distributed {
        index: int,
        share: Distribution,
        beneficiary: Beneficiary,
        authority: Address,
        pool_key: Address,
        beneficiary_key: Address,
        bump: u8,
        now: i64,
    },
    /// A claim on the share at `index` is paid.
    Paid {
        index: int,
        beneficiary: Beneficiary,
        beneficiary_key: Address,
        beneficiary_authority: Address,
        pool_token_account: TokenAccountInfo,
        beneficiary_token_account: TokenAccountInfo,
        now: i64,
    },
    /// The share at `index` is taken back.
    Reclaimed { index: int, authority: Address, pool_key: Address, now: i64 },
    /// A donation comes in, the settings change, or the pool is closed.
    BooksKept,
}

impl PoolLedger {
    /// Whether this is the ledger of a pool that was just created: no entry,
    /// and nothing in the books of registration, allocation and payment.
    pub open spec fn is_new(&self) -> bool {
        &&& self.entries.len() == 0
        &&& self.pool.registered_beneficiary_count == 0
        &&& self.pool.total_allocation_weight == 0
        &&& self.pool.total_distributed == 0
        &&& self.pool.total_claimed == 0
        &&& self.pool.beneficiary_count == 0
    }

    /// Whether `event` takes this ledger to `next`.
    pub open spec fn moves_to(&self, next: PoolLedger, event: LedgerEvent) -> bool {
        match event {
            LedgerEvent::Registered {
                beneficiary,
                authority,
                pool_key,
                beneficiary_key,
                bump,
                now,
            } => self.registers(next, beneficiary, authority, pool_key, beneficiary_key, bump, now),
            LedgerEvent::Locked { authority } => self.locks(next, authority),
            LedgerEvent::Distributed {
                index,
                share,
                beneficiary,
                authority,
                pool_key,
                beneficiary_key,
                bump,
                now,
            } => self.distributes(
                next,
                index,
                share,
                beneficiary,
                authority,
                pool_key,
                beneficiary_key,
                bump,
                now,
            ),
            LedgerEvent::Paid {
                index,
                beneficiary,
                beneficiary_key,
                beneficiary_authority,
                pool_token_account,
                beneficiary_token_account,
                now,
            } => self.pays(
                next,
                index,
                beneficiary,
                beneficiary_key,
                beneficiary_authority,
                pool_token_account,
                beneficiary_token_account,
                now,
            ),
            LedgerEvent::Reclaimed { index, authority, pool_key, now } => self.reclaims(
                next,
                index,
                authority,
                pool_key,
                now,
            ),
            LedgerEvent::BooksKept => self.keeps_books(next),
        }
    }
}

/// Whether `states` is a life of a pool: it starts with a new ledger, and
/// each state follows from the one before it by the event between them.
pub open spec fn is_history(states: Seq<PoolLedger>, events: Seq<LedgerEvent>) -> bool {
    &&& states.len() == events.len() + 1
    &&& states[0].is_new()
    &&& forall|i: int|
        0 <= i < events.len() ==> (#[trigger] states[i]).moves_to(states[i + 1], events[i])
}

/// The sum over a list with one more entry is the sum over the list, plus the
/// measure of that entry.
pub proof fn lemma_sum_push(
    entries: Seq<LedgerEntry>,
    entry: LedgerEntry,
    measure: spec_fn(LedgerEntry) -> int,
)
    ensures
        sum_over(entries.push(entry), measure) == sum_over(entries, measure) + measure(entry),
{
    assert(entries.push(entry).drop_last() =~= entries);
}

/// Replacing one entry changes the sum by the difference of the two measures.
pub proof fn lemma_sum_update(
    entries: Seq<LedgerEntry>,
    index: int,
    entry: LedgerEntry,
    measure: spec_fn(LedgerEntry) -> int,
)
    requires
        0 <= index < entries.len(),
    ensures
        sum_over(entries.update(index, entry), measure) == sum_over(entries, measure) - measure(
            entries[index],
        ) + measure(entry),
    decreases entries.len(),
{
    let changed = entries.update(index, entry);
    if index == entries.len() - 1 {
        assert(changed.drop_last() =~= entries.drop_last());
    } else {
        lemma_sum_update(entries.drop_last(), index, entry, measure);
        assert(changed.drop_last() =~= entries.drop_last().update(index, entry));
    }
}

/// Where one measure is at most another on every entry, so are the sums.
pub proof fn lemma_sum_monotone(
    entries: Seq<LedgerEntry>,
    lower: spec_fn(LedgerEntry) -> int,
    upper: spec_fn(LedgerEntry) -> int,
)
    requires
        forall|i: int| 0 <= i < entries.len() ==> lower(#[trigger] entries[i]) <= upper(entries[i]),
    ensures
        sum_over(entries, lower) <= sum_over(entries, upper),
    decreases entries.len(),
{
    if entries.len() > 0 {
        let rest = entries.drop_last();
        assert forall|i: int| 0 <= i < rest.len() implies lower(#[trigger] rest[i]) <= upper(
            rest[i],
        ) by {
            assert(rest[i] == entries[i]);
        }
        lemma_sum_monotone(rest, lower, upper);
        assert(entries.last() == entries[entries.len() - 1]);
    }
}

/// A sum of measures that are all zero is zero.
pub proof fn lemma_sum_zero(entries: Seq<LedgerEntry>, measure: spec_fn(LedgerEntry) -> int)
    requires
        forall|i: int| 0 <= i < entries.len() ==> measure(#[trigger] entries[i]) == 0,
    ensures
        sum_over(entries, measure) == 0,
    decreases entries.len(),
{
    if entries.len() > 0 {
        let rest = entries.drop_last();
        assert forall|i: int| 0 <= i < rest.len() implies measure(#[trigger] rest[i]) == 0 by {
            assert(rest[i] == entries[i]);
        }
        lemma_sum_zero(rest, measure);
        assert(entries.last() == entries[entries.len() - 1]);
    }
}

/// The shares of a consistent list of entries, scaled by the pool's total
/// weight, are no more than the deposits scaled by the weights of the list;
/// and in a pool without weight, scaled by the number of registered
/// beneficiaries, no more than the deposits once for each entry.
pub proof fn lemma_outstanding_is_fair(pool: FundPool, entries: Seq<LedgerEntry>)
    requires
        forall|i: int| 0 <= i < entries.len() ==> entry_consistent(pool, #[trigger] entries[i]),
    ensures
        pool.total_allocation_weight > 0 ==> total_outstanding(entries)
            * pool.total_allocation_weight <= pool.total_deposited * total_weight(entries),
        pool.total_allocation_weight == 0 ==> total_outstanding(entries)
            * pool.registered_beneficiary_count <= pool.total_deposited * entries.len(),
        total_outstanding(entries) >= 0,
        total_weight(entries) >= 0,
    decreases entries.len(),
{
    if entries.len() > 0 {
        let rest = entries.drop_last();
        let last = entries.last();
        assert forall|i: int| 0 <= i < rest.len() implies entry_consistent(
            pool,
            #[trigger] rest[i],
        ) by {
            assert(rest[i] == entries[i]);
        }
        lemma_outstanding_is_fair(pool, rest);
        assert(last == entries[entries.len() - 1]);
        assert(entry_consistent(pool, last));
        let weight = pool.total_allocation_weight as int;
        let heads = pool.registered_beneficiary_count as int;
        let deposits = pool.total_deposited as int;
        let before = total_outstanding(rest);
        let part = outstanding_of(last);
        assert(total_outstanding(entries) == before + part);
        assert(total_weight(entries) == total_weight(rest) + weight_of(last));
        if weight > 0 {
            assert(part * weight <= deposits * weight_of(last)) by (nonlinear_arith)
                requires
                    part == 0 || part * weight <= deposits * weight_of(last),
                    deposits >= 0,
                    weight_of(last) >= 0,
            ;
            assert((before + part) * weight <= deposits * (total_weight(rest) + weight_of(last)))
                by (nonlinear_arith)
                requires
                    before * weight <= deposits * total_weight(rest),
                    part * weight <= deposits * weight_of(last),
            ;
        } else {
            assert(part * heads <= deposits) by (nonlinear_arith)
                requires
                    part == 0 || part * heads <= deposits,
                    deposits >= 0,
            ;
            assert((before + part) * heads <= deposits * (rest.len() + 1)) by (nonlinear_arith)
                requires
                    before * heads <= deposits * rest.len(),
                    part * heads <= deposits,
            ;
        }
    }
}

/// Conservation of funds. In a consistent ledger no more was paid out than is
/// allocated, and no more is allocated than was paid in:
/// `total_claimed <= total_distributed <= total_deposited`.
pub proof fn law_conservation(ledger: PoolLedger)
    requires
        ledger.consistent(),
    ensures
        ledger.pool.books_balance(),
{
    let pool = ledger.pool;
    let entries = ledger.entries;
    assert forall|i: int| 0 <= i < entries.len() implies paid_of(#[trigger] entries[i])
        <= outstanding_of(entries[i]) by {
        assert(entry_consistent(pool, entries[i]));
    }
    lemma_sum_monotone(
        entries,
        |entry: LedgerEntry| paid_of(entry),
        |entry: LedgerEntry| outstanding_of(entry),
    );
    lemma_outstanding_is_fair(pool, entries);
    let allocated = total_outstanding(entries);
    let deposits = pool.total_deposited as int;
    if pool.total_allocation_weight > 0 {
        let weight = pool.total_allocation_weight as int;
        assert(allocated <= deposits) by (nonlinear_arith)
            requires
                allocated * weight <= deposits * weight,
                weight > 0,
        ;
    } else if entries.len() > 0 {
        let heads = pool.registered_beneficiary_count as int;
        assert(allocated <= deposits) by (nonlinear_arith)
            requires
                allocated * heads <= deposits * heads,
                heads > 0,
        ;
    } else {
        assert(allocated == 0);
    }
}

/// Before the lock nothing is allocated. In a consistent ledger of a pool
/// that is not locked, no beneficiary has a share and the books of allocation
/// and payment are empty.
pub proof fn law_nothing_allocated_before_lock(ledger: PoolLedger)
    requires
        ledger.consistent(),
        !ledger.pool.registration_locked,
    ensures
        ledger.pool.beneficiary_count == 0,
        ledger.pool.total_distributed == 0,
        ledger.pool.total_claimed == 0,
{
    lemma_sum_zero(ledger.entries, |entry: LedgerEntry| served_of(entry));
    lemma_sum_zero(ledger.entries, |entry: LedgerEntry| outstanding_of(entry));
    lemma_sum_zero(ledger.entries, |entry: LedgerEntry| paid_of(entry));
}

/// No double counting of weight. In a consistent ledger the pool's total
/// weight is exactly the sum of the weights of its registrations, and its
/// count is their number.
pub proof fn law_weight_is_sum_of_registrations(ledger: PoolLedger)
    requires
        ledger.consistent(),
    ensures
        total_weight(ledger.entries) == ledger.pool.total_allocation_weight,
        ledger.entries.len() == ledger.pool.registered_beneficiary_count,
{
}

/// A pool that was just created, with empty books and no entry, is
/// consistent.
pub proof fn law_new_ledger_is_consistent(ledger: PoolLedger)
    requires
        ledger.is_new(),
    ensures
        ledger.consistent(),
{
}

/// Registering keeps a ledger consistent.
pub proof fn law_registration_keeps_consistency(
    ledger: PoolLedger,
    next: PoolLedger,
    beneficiary: Beneficiary,
    authority: Address,
    pool_key: Address,
    beneficiary_key: Address,
    bump: u8,
    now: i64,
)
    requires
        ledger.consistent(),
        ledger.registers(next, beneficiary, authority, pool_key, beneficiary_key, bump, now),
    ensures
        next.consistent(),
{
    let entry = next.entries.last();
    lemma_sum_push(ledger.entries, entry, |entry: LedgerEntry| weight_of(entry));
    lemma_sum_push(ledger.entries, entry, |entry: LedgerEntry| outstanding_of(entry));
    lemma_sum_push(ledger.entries, entry, |entry: LedgerEntry| paid_of(entry));
    lemma_sum_push(ledger.entries, entry, |entry: LedgerEntry| served_of(entry));
    assert forall|i: int| 0 <= i < next.entries.len() implies (#[trigger] next.entries[i]).share
        is None && entry_consistent(next.pool, next.entries[i]) by {
        if i < ledger.entries.len() {
            assert(next.entries[i] == ledger.entries[i]);
            assert(entry_consistent(ledger.pool, ledger.entries[i]));
        }
    }
    assert(!holds_beneficiary(ledger.entries, beneficiary_key));
    assert forall|i: int, j: int| 0 <= i < j < next.entries.len() implies (
    #[trigger] next.entries[i]).registration.beneficiary@ != (
    #[trigger] next.entries[j]).registration.beneficiary@ by {
        assert(next.entries[i] == ledger.entries[i]);
        if j < ledger.entries.len() {
            assert(next.entries[j] == ledger.entries[j]);
        }
    }
    assert forall|i: int| 0 <= i < next.entries.len() implies (
    #[trigger] next.entries[i]).registration.pool@ == next.key@ by {
        if i < ledger.entries.len() {
            assert(next.entries[i] == ledger.entries[i]);
        }
    }
}

/// One registration per pool and beneficiary. In a consistent ledger a
/// beneficiary that has an entry is never registered again: the attempt is
/// refused, and with "already registered" where the pool is active and open.
pub proof fn law_no_second_registration(
    ledger: PoolLedger,
    next: PoolLedger,
    index: int,
    beneficiary: Beneficiary,
    authority: Address,
    pool_key: Address,
    bump: u8,
    now: i64,
)
    requires
        0 <= index < ledger.entries.len(),
    ensures
        holds_beneficiary(ledger.entries, ledger.entries[index].registration.beneficiary),
        !ledger.registers(
            next,
            beneficiary,
            authority,
            pool_key,
            ledger.entries[index].registration.beneficiary,
            bump,
            now,
        ),
        ledger.pool.is_active && !ledger.pool.registration_locked ==> registration_refusal(
            ledger.pool,
            beneficiary,
            authority,
            holds_beneficiary(ledger.entries, ledger.entries[index].registration.beneficiary),
        ) == Some(ErrorCode::BeneficiaryAlreadyRegisteredForPool),
{
}

/// A registration that meets every condition is accepted and counted once.
/// In a consistent ledger of an active, open pool, a verified beneficiary
/// without an entry that meets the pool's minimums is registered by the
/// pool's authority wherever the pool's totals have room. The pool's total
/// weight is then the old one plus the weight of the new entry, which is the
/// sum of the weights of all entries, the new one included; the count is one
/// more.
pub proof fn law_registration_is_accepted_and_counted(
    ledger: PoolLedger,
    next: PoolLedger,
    beneficiary: Beneficiary,
    authority: Address,
    pool_key: Address,
    beneficiary_key: Address,
    bump: u8,
    now: i64,
)
    requires
        ledger.consistent(),
        pool_key@ == ledger.key@,
        ledger.pool.is_active,
        !ledger.pool.registration_locked,
        !holds_beneficiary(ledger.entries, beneficiary_key),
        beneficiary.verification_status is Verified,
        ledger.pool.authority@ == authority@,
        meets_minimums(ledger.pool, beneficiary),
        ledger.pool.total_allocation_weight + weight_for(
            ledger.pool.distribution_type,
            beneficiary,
        ) <= u64::MAX,
        ledger.pool.registered_beneficiary_count < u32::MAX,
        next.key == ledger.key,
        next.pool == pool_with_registration(
            ledger.pool,
            weight_for(ledger.pool.distribution_type, beneficiary),
        ),
        next.entries == ledger.entries.push(
            LedgerEntry {
                registration: new_registration(
                    ledger.pool,
                    beneficiary,
                    pool_key,
                    beneficiary_key,
                    bump,
                    now,
                ),
                share: None,
            },
        ),
    ensures
        registration_refusal(ledger.pool, beneficiary, authority, false) is None,
        ledger.registers(next, beneficiary, authority, pool_key, beneficiary_key, bump, now),
        next.consistent(),
        next.pool.total_allocation_weight == ledger.pool.total_allocation_weight
            + next.entries.last().registration.allocation_weight,
        next.pool.total_allocation_weight == total_weight(next.entries),
        next.pool.registered_beneficiary_count == ledger.pool.registered_beneficiary_count + 1,
        next.entries.len() == next.pool.registered_beneficiary_count,
{
    law_registration_keeps_consistency(
        ledger,
        next,
        beneficiary,
        authority,
        pool_key,
        beneficiary_key,
        bump,
        now,
    );
}

/// Locking keeps a ledger consistent.
pub proof fn law_lock_keeps_consistency(ledger: PoolLedger, next: PoolLedger, authority: Address)
    requires
        ledger.consistent(),
        ledger.locks(next, authority),
    ensures
        next.consistent(),
{
    assert forall|i: int| 0 <= i < next.entries.len() implies entry_consistent(
        next.pool,
        #[trigger] next.entries[i],
    ) by {
        assert(entry_consistent(ledger.pool, ledger.entries[i]));
    }
}

/// Allocating a share keeps a ledger consistent.
pub proof fn law_distribution_keeps_consistency(
    ledger: PoolLedger,
    next: PoolLedger,
    index: int,
    share: Distribution,
    beneficiary: Beneficiary,
    authority: Address,
    pool_key: Address,
    beneficiary_key: Address,
    bump: u8,
    now: i64,
)
    requires
        ledger.consistent(),
        ledger.distributes(
            next,
            index,
            share,
            beneficiary,
            authority,
            pool_key,
            beneficiary_key,
            bump,
            now,
        ),
    ensures
        next.consistent(),
{
    let pool = ledger.pool;
    let old_entry = ledger.entries[index];
    let new_entry = next.entries[index];
    assert(entry_consistent(pool, old_entry));
    lemma_sum_update(ledger.entries, index, new_entry, |entry: LedgerEntry| weight_of(entry));
    lemma_sum_update(ledger.entries, index, new_entry, |entry: LedgerEntry| outstanding_of(entry));
    lemma_sum_update(ledger.entries, index, new_entry, |entry: LedgerEntry| paid_of(entry));
    lemma_sum_update(ledger.entries, index, new_entry, |entry: LedgerEntry| served_of(entry));
    let weight = old_entry.registration.allocation_weight;
    let amount = share.amount_allocated;
    let deposits = pool.total_deposited as int;
    if pool.total_allocation_weight > 0 {
        let total = pool.total_allocation_weight as int;
        assert(((deposits * weight) / total) * total <= deposits * weight) by (nonlinear_arith)
            requires
                total > 0,
                deposits * weight >= 0,
        ;
        assert(deposits * weight >= 0) by (nonlinear_arith)
            requires
                deposits >= 0,
                weight >= 0,
        ;
    } else {
        let heads = pool.registered_beneficiary_count as int;
        assert(heads > 0);
        assert((deposits / heads) * heads <= deposits) by (nonlinear_arith)
            requires
                heads > 0,
                deposits >= 0,
        ;
    }
    assert(within_fair_part(next.pool, weight, amount));
    assert(share.well_formed()) by {
        assert(share.amount_immediate + share.amount_locked == share.amount_allocated);
    }
    assert forall|i: int| 0 <= i < next.entries.len() implies entry_consistent(
        next.pool,
        #[trigger] next.entries[i],
    ) by {
        if i != index {
            assert(next.entries[i] == ledger.entries[i]);
            assert(entry_consistent(pool, ledger.entries[i]));
        }
    }
}

/// Paying a claim keeps a ledger consistent.
pub proof fn law_claim_keeps_consistency(
    ledger: PoolLedger,
    next: PoolLedger,
    index: int,
    beneficiary: Beneficiary,
    beneficiary_key: Address,
    beneficiary_authority: Address,
    pool_token_account: TokenAccountInfo,
    beneficiary_token_account: TokenAccountInfo,
    now: i64,
)
    requires
        ledger.consistent(),
        ledger.pays(
            next,
            index,
            beneficiary,
            beneficiary_key,
            beneficiary_authority,
            pool_token_account,
            beneficiary_token_account,
            now,
        ),
    ensures
        next.consistent(),
{
    let pool = ledger.pool;
    let new_entry = next.entries[index];
    assert(entry_consistent(pool, ledger.entries[index]));
    lemma_sum_update(ledger.entries, index, new_entry, |entry: LedgerEntry| weight_of(entry));
    lemma_sum_update(ledger.entries, index, new_entry, |entry: LedgerEntry| outstanding_of(entry));
    lemma_sum_update(ledger.entries, index, new_entry, |entry: LedgerEntry| paid_of(entry));
    lemma_sum_update(ledger.entries, index, new_entry, |entry: LedgerEntry| served_of(entry));
    assert forall|i: int| 0 <= i < next.entries.len() implies entry_consistent(
        next.pool,
        #[trigger] next.entries[i],
    ) by {
        if i != index {
            assert(next.entries[i] == ledger.entries[i]);
        }
        assert(entry_consistent(pool, ledger.entries[i]));
    }
}

/// Taking a share back keeps a ledger consistent.
pub proof fn law_reclaim_keeps_consistency(
    ledger: PoolLedger,
    next: PoolLedger,
    index: int,
    authority: Address,
    pool_key: Address,
    now: i64,
)
    requires
        ledger.consistent(),
        ledger.reclaims(next, index, authority, pool_key, now),
    ensures
        next.consistent(),
{
    let pool = ledger.pool;
    let new_entry = next.entries[index];
    assert(entry_consistent(pool, ledger.entries[index]));
    lemma_sum_update(ledger.entries, index, new_entry, |entry: LedgerEntry| weight_of(entry));
    lemma_sum_update(ledger.entries, index, new_entry, |entry: LedgerEntry| outstanding_of(entry));
    lemma_sum_update(ledger.entries, index, new_entry, |entry: LedgerEntry| paid_of(entry));
    lemma_sum_update(ledger.entries, index, new_entry, |entry: LedgerEntry| served_of(entry));
    assert forall|i: int| 0 <= i < next.entries.len() implies entry_consistent(
        next.pool,
        #[trigger] next.entries[i],
    ) by {
        if i != index {
            assert(next.entries[i] == ledger.entries[i]);
        }
        assert(entry_consistent(pool, ledger.entries[i]));
    }
}

/// A deposit, or any other change that leaves the allocation books alone,
/// keeps a ledger consistent.
pub proof fn law_deposit_keeps_consistency(ledger: PoolLedger, next: PoolLedger)
    requires
        ledger.consistent(),
        ledger.keeps_books(next),
    ensures
        next.consistent(),
{
    assert forall|i: int| 0 <= i < next.entries.len() implies entry_consistent(
        next.pool,
        #[trigger] next.entries[i],
    ) by {
        let entry = ledger.entries[i];
        assert(entry_consistent(ledger.pool, entry));
        if let Some(share) = entry.share {
            let amount = share.amount_allocated as int;
            let weight = entry.registration.allocation_weight as int;
            let before = ledger.pool.total_deposited as int;
            let after = next.pool.total_deposited as int;
            assert(before * weight <= after * weight) by (nonlinear_arith)
                requires
                    before <= after,
                    weight >= 0,
            ;
        }
    }
}

/// A donation, a change of settings and a closing all leave the allocation
/// books alone, whatever the entries are: each is a change that
/// `law_deposit_keeps_consistency` speaks of.
pub proof fn law_pool_changes_keep_books(
    ledger: PoolLedger,
    net_amount: u64,
    params: UpdatePoolConfigParams,
    now: i64,
)
    requires
        ledger.pool.total_deposited + net_amount <= u64::MAX,
        ledger.pool.donor_count < u32::MAX,
    ensures
        ledger.keeps_books(
            PoolLedger {
                key: ledger.key,
                pool: FundPool {
                    total_deposited: (ledger.pool.total_deposited + net_amount) as u64,
                    donor_count: (ledger.pool.donor_count + 1) as u32,
                    ..ledger.pool
                },
                entries: ledger.entries,
            },
        ),
        ledger.keeps_books(
            PoolLedger {
                key: ledger.key,
                pool: pool_updated(ledger.pool, params),
                entries: ledger.entries,
            },
        ),
        ledger.keeps_books(
            PoolLedger {
                key: ledger.key,
                pool: FundPool { is_active: false, closed_at: Some(now), ..ledger.pool },
                entries: ledger.entries,
            },
        ),
{
}

/// The weights are frozen by the lock. Once a pool is locked no registration
/// is accepted, whoever asks and for whomever: an active pool refuses with
/// "registration phase locked", and a pool that is not active refuses as not
/// active. The pool that would come of a registration never comes about.
pub proof fn law_no_registration_after_lock(
    pool: FundPool,
    beneficiary: Beneficiary,
    authority: Address,
    already_registered: bool,
)
    requires
        pool.registration_locked,
    ensures
        registration_refusal(pool, beneficiary, authority, already_registered) is Some,
        pool.is_active ==> registration_refusal(pool, beneficiary, authority, already_registered)
            == Some(ErrorCode::RegistrationPhaseLocked),
        !pool.is_active ==> registration_refusal(pool, beneficiary, authority, already_registered)
            == Some(ErrorCode::PoolNotActive),
{
}

/// In a consistent ledger the pool's total distributed always holds every
/// share that can be taken back: taking back never fails on the arithmetic.
pub proof fn law_reclaim_never_underflows(
    ledger: PoolLedger,
    index: int,
    authority: Address,
    pool_key: Address,
    now: i64,
)
    requires
        ledger.consistent(),
        0 <= index < ledger.entries.len(),
        ledger.entries[index].share is Some,
    ensures
        reclaim_refusal(ledger.entries[index].share->0, ledger.pool, authority, pool_key, now)
            != Some(ErrorCode::ArithmeticUnderflow),
{
    let share = ledger.entries[index].share->0;
    if !share.is_expired {
        let cleared = LedgerEntry { share: None, ..ledger.entries[index] };
        lemma_sum_update(
            ledger.entries,
            index,
            cleared,
            |entry: LedgerEntry| outstanding_of(entry),
        );
        let rest = ledger.entries.update(index, cleared);
        assert forall|i: int| 0 <= i < rest.len() implies 0 <= outstanding_of(#[trigger] rest[i]) by {}
        lemma_sum_monotone(
            rest,
            |entry: LedgerEntry| 0int,
            |entry: LedgerEntry| outstanding_of(entry),
        );
        lemma_sum_zero(rest, |entry: LedgerEntry| 0int);
    }
}

/// Every event keeps a ledger consistent.
pub proof fn law_every_event_keeps_consistency(
    ledger: PoolLedger,
    next: PoolLedger,
    event: LedgerEvent,
)
    requires
        ledger.consistent(),
        ledger.moves_to(next, event),
    ensures
        next.consistent(),
{
    match event {
        LedgerEvent::Registered { beneficiary, authority, pool_key, beneficiary_key, bump, now } => {
            law_registration_keeps_consistency(
                ledger,
                next,
                beneficiary,
                authority,
                pool_key,
                beneficiary_key,
                bump,
                now,
            );
        },
        LedgerEvent::Locked { authority } => {
            law_lock_keeps_consistency(ledger, next, authority);
        },
        LedgerEvent::Distributed {
            index,
            share,
            beneficiary,
            authority,
            pool_key,
            beneficiary_key,
            bump,
            now,
        } => {
            law_distribution_keeps_consistency(
                ledger,
                next,
                index,
                share,
                beneficiary,
                authority,
                pool_key,
                beneficiary_key,
                bump,
                now,
            );
        },
        LedgerEvent::Paid {
            index,
            beneficiary,
            beneficiary_key,
            beneficiary_authority,
            pool_token_account,
            beneficiary_token_account,
            now,
        } => {
            law_claim_keeps_consistency(
                ledger,
                next,
                index,
                beneficiary,
                beneficiary_key,
                beneficiary_authority,
                pool_token_account,
                beneficiary_token_account,
                now,
            );
        },
        LedgerEvent::Reclaimed { index, authority, pool_key, now } => {
            law_reclaim_keeps_consistency(ledger, next, index, authority, pool_key, now);
        },
        LedgerEvent::BooksKept => {
            law_deposit_keeps_consistency(ledger, next);
        },
    }
}

/// Conservation at every point in time. At every point of every life of a
/// pool its ledger is consistent: no more was paid out than is allocated, no
/// more is allocated than was paid in, and the pool's total weight is the sum
/// of the weights of its registrations.
pub proof fn law_books_balance_at_every_point(
    states: Seq<PoolLedger>,
    events: Seq<LedgerEvent>,
    at: int,
)
    requires
        is_history(states, events),
        0 <= at < states.len(),
    ensures
        states[at].consistent(),
        states[at].pool.books_balance(),
        total_weight(states[at].entries) == states[at].pool.total_allocation_weight,
    decreases at,
{
    if at == 0 {
        law_new_ledger_is_consistent(states[0]);
    } else {
        law_books_balance_at_every_point(states, events, at - 1);
        assert(states[at - 1].moves_to(states[at - 1 + 1], events[at - 1]));
        law_every_event_keeps_consistency(states[at - 1], states[at], events[at - 1]);
    }
    law_conservation(states[at]);
}

/// The weight snapshot is frozen by the lock. From the point at which a pool
/// is locked, at every later point of its life it is still locked, with the
/// same total weight, the same number of registrations, and the same weight
/// on each of them.
pub proof fn law_snapshot_frozen_after_lock(
    states: Seq<PoolLedger>,
    events: Seq<LedgerEvent>,
    locked_at: int,
    at: int,
)
    requires
        is_history(states, events),
        0 <= locked_at <= at < states.len(),
        states[locked_at].pool.registration_locked,
    ensures
        states[at].pool.registration_locked,
        states[at].pool.total_allocation_weight == states[locked_at].pool.total_allocation_weight,
        states[at].pool.registered_beneficiary_count
            == states[locked_at].pool.registered_beneficiary_count,
        states[at].entries.len() == states[locked_at].entries.len(),
        forall|i: int|
            0 <= i < states[at].entries.len() ==> (
            #[trigger] states[at].entries[i]).registration.allocation_weight
                == states[locked_at].entries[i].registration.allocation_weight,
    decreases at - locked_at,
{
    if at > locked_at {
        law_snapshot_frozen_after_lock(states, events, locked_at, at - 1);
        let before = states[at - 1];
        let after = states[at];
        assert(before.moves_to(states[at - 1 + 1], events[at - 1]));
        assert forall|i: int| 0 <= i < after.entries.len() implies (
        #[trigger] after.entries[i]).registration.allocation_weight
            == states[locked_at].entries[i].registration.allocation_weight by {
            assert(before.entries[i].registration.allocation_weight
                == states[locked_at].entries[i].registration.allocation_weight);
        }
    }
}

} // verus!
