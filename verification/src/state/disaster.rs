use crate::address::Address;
use crate::state::enums::DisasterType;
use crate::state::location::Location;
use vstd::prelude::*;

verus! {

/// A declared disaster, with the roll-up counters of all aid given for it.
#[derive(Clone, Debug, PartialEq, Eq)]
pub struct DisasterEvent {
    pub event_id: String,
    pub name: String,
    pub event_type: DisasterType,
    pub declared_at: i64,
    pub location: Location,
    /// 1 to 10.
    pub severity: u8,
    pub is_active: bool,
    pub authority: Address,
    pub affected_areas: Vec<String>,
    pub description: String,
    pub estimated_affected_population: u32,
    pub total_beneficiaries: u32,
    pub verified_beneficiaries: u32,
    pub total_aid_distributed: u64,
    pub created_at: i64,
    pub updated_at: i64,
    pub bump: u8,
}

impl DisasterEvent {
    pub const MAX_EVENT_ID_LEN: usize = 50;
    pub const MAX_NAME_LEN: usize = 100;
    pub const MAX_DESCRIPTION_LEN: usize = 500;
    pub const MAX_AFFECTED_AREAS: usize = 20;
    pub const MAX_AREA_NAME_LEN: usize = 50;
    pub const MIN_SEVERITY: u8 = 1;
    pub const MAX_SEVERITY: u8 = 10;
}

} // verus!
