use crate::address::Address;
use crate::state::enums::AdminActionType;
use vstd::prelude::*;

verus! {

/// One entry of the audit trail: what an administrator did, to what, when and
/// why.
#[derive(Clone, Debug, PartialEq, Eq)]
pub struct AdminAction {
    pub action_type: AdminActionType,
    pub target: Address,
    pub admin: Address,
    pub reason: String,
    pub timestamp: i64,
    pub metadata: String,
    pub bump: u8,
}

impl AdminAction {
    pub const MAX_REASON_LEN: usize = 500;
    pub const MAX_METADATA_LEN: usize = 1000;

    /// Whether this is the entry for the given action, with no metadata.
    pub open spec fn records(
        &self,
        action_type: AdminActionType,
        target: Address,
        admin: Address,
        reason: String,
        now: i64,
        bump: u8,
    ) -> bool {
        &&& self.metadata@ == Seq::<char>::empty()
        &&& *self == (AdminAction {
            action_type,
            target,
            admin,
            reason,
            timestamp: now,
            metadata: self.metadata,
            bump,
        })
    }

    /// The entry for the given action, with no metadata.
    pub fn new(
        action_type: AdminActionType,
        target: &Address,
        admin: &Address,
        reason: String,
        now: i64,
        bump: u8,
    ) -> (entry: AdminAction)
        ensures
            entry.records(action_type, *target, *admin, reason, now, bump),
    {
        AdminAction {
            action_type,
            target: *target,
            admin: *admin,
            reason,
            timestamp: now,
            metadata: String::new(),
            bump,
        }
    }
}

} // verus!
