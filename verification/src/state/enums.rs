use vstd::prelude::*;

verus! {

/// What kind of event a disaster is.
#[derive(Clone, Copy, Debug, PartialEq, Eq, Structural)]
pub enum DisasterType {
    Earthquake,
    Volcano,
    Landslide,
    Avalanche,
    Sinkhole,
    Flood,
    Hurricane,
    Tornado,
    Drought,
    Wildfire,
    Blizzard,
    Heatwave,
    Tsunami,
    IndustrialAccident,
    ChemicalSpill,
    NuclearAccident,
    OilSpill,
    BuildingCollapse,
    Transportation,
    Conflict,
    Terrorism,
    CivilUnrest,
    Pandemic,
    FoodPoisoning,
    AnimalAttack,
    Other,
}

/// Where a beneficiary stands in the verification process.
///
/// `Pending` becomes `Verified` once enough field workers have approved, or
/// `Flagged` when a field worker raises a concern. An administrator sends a
/// flagged beneficiary back to `Pending` or on to `Rejected`. `Verified` and
/// `Rejected` are final.
#[derive(Clone, Copy, Debug, PartialEq, Eq, Structural)]
pub enum VerificationStatus {
    Pending,
    Verified,
    Rejected,
    Flagged,
}

/// How a pool weighs its registered beneficiaries against each other.
#[derive(Clone, Copy, Debug, PartialEq, Eq, Structural)]
pub enum DistributionType {
    /// Everyone counts once.
    Equal,
    /// A beneficiary counts once per family member.
    WeightedFamily,
    /// A beneficiary counts once per point of damage severity.
    WeightedDamage,
    /// Released by milestone; everyone counts once.
    Milestone,
}

/// How a donation reached its recipient.
#[derive(Clone, Copy, Debug, PartialEq, Eq, Structural)]
pub enum DonationType {
    Direct,
    Pool,
    Anonymous,
}

/// What an administrator did, as recorded in the audit trail.
#[derive(Clone, Copy, Debug, PartialEq, Eq, Structural)]
pub enum AdminActionType {
    VerifyNGO,
    RevokeVerification,
    ActivateNGO,
    DeactivateNGO,
    BlacklistNGO,
    RemoveBlacklist,
    InitiateAdminTransfer,
    AcceptAdminTransfer,
    CancelAdminTransfer,
    UpdatePlatformConfig,
    PausePlatform,
    UnpausePlatform,
    CreateDisaster,
    UpdateDisaster,
    CloseDisaster,
    CreateFundPool,
    CloseFundPool,
    RegisterBeneficiary,
    VerifyBeneficiary,
    RejectBeneficiary,
    DistributeFunds,
    ClaimFunds,
    DonateToPool,
    DirectDonation,
}

} // verus!
