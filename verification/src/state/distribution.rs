use crate::address::Address;
use vstd::prelude::*;

verus! {

/// One beneficiary's share of one pool: how much was allocated, how it splits
/// into a part payable at once and a part payable after the unlock time, and
/// how much has been paid out.
#[derive(Clone, Debug, PartialEq, Eq)]
pub struct Distribution {
    pub beneficiary: Address,
    pub pool: Address,
    /// The whole share.
    pub amount_allocated: u64,
    /// The part payable at once.
    pub amount_immediate: u64,
    /// The part payable from `unlock_time` on.
    pub amount_locked: u64,
    /// What has been paid out so far.
    pub amount_claimed: u64,
    /// When the locked part becomes payable; `None` means at once.
    pub unlock_time: Option<i64>,
    pub created_at: i64,
    /// When the immediate part was paid.
    pub claimed_at: Option<i64>,
    /// When the locked part was paid.
    pub locked_claimed_at: Option<i64>,
    /// Set once nothing more can ever be paid: all was claimed, or the share
    /// was taken back.
    pub is_fully_claimed: bool,
    pub allocation_weight: u16,
    pub notes: String,
    pub bump: u8,
    /// After this time an untouched share may be taken back by the pool.
    pub claim_deadline: Option<i64>,
    /// Whether the share was taken back.
    pub is_expired: bool,
    pub expired_at: Option<i64>,
}

impl Distribution {
    pub const MAX_NOTES_LEN: usize = 200;

    /// How long after allocation a share can first be taken back: 90 days, in
    /// seconds.
    pub const CLAIM_WINDOW: i64 = 7_776_000;

    /// What has been paid out according to the two payment times.
    pub open spec fn paid_parts(&self) -> int {
        (if self.claimed_at is Some { self.amount_immediate as int } else { 0 })
            + (if self.locked_claimed_at is Some { self.amount_locked as int } else { 0 })
    }

    /// The rules that hold of every share from allocation on:
    /// the two parts add up to the whole, the amount paid is exactly the parts
    /// whose payment time is set, a part of zero is never marked paid, the
    /// share is closed exactly when all is paid or it was taken back, and a
    /// share that was taken back had nothing paid.
    pub open spec fn well_formed(&self) -> bool {
        &&& self.amount_immediate + self.amount_locked == self.amount_allocated
        &&& self.amount_claimed == self.paid_parts()
        &&& (self.claimed_at is Some ==> self.amount_immediate > 0)
        &&& (self.locked_claimed_at is Some ==> self.amount_locked > 0)
        &&& (self.is_fully_claimed <==> (self.amount_claimed == self.amount_allocated
            || self.is_expired))
        &&& (self.is_expired ==> self.amount_claimed == 0)
    }

    /// Whether the locked part may be paid at time `now`.
    pub open spec fn unlocked_at(&self, now: i64) -> bool {
        match self.unlock_time {
            Some(unlock_time) => now >= unlock_time,
            None => true,
        }
    }
}

} // verus!
