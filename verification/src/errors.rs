use vstd::prelude::*;

verus! {

/// Every way an operation can be refused. Each condition has its own stable code,
/// so a caller can tell "wait and retry" apart from "never valid".
#[derive(Clone, Copy, Debug, PartialEq, Eq, Structural)]
pub enum ErrorCode {
    /// Beneficiary is not verified.
    BeneficiaryNotVerified,
    /// Insufficient approvals for verification (requires 3/5).
    InsufficientApprovals,
    /// Beneficiary already verified for this disaster.
    AlreadyVerified,
    /// Field worker has already approved this beneficiary.
    DuplicateApproval,
    /// Maximum number of verifier approvals reached.
    MaxVerifiersReached,
    /// Verification threshold not met.
    VerificationThresholdNotMet,
    /// Invalid verification status transition.
    InvalidStatusTransition,
    /// Beneficiary is flagged and requires admin review.
    BeneficiaryFlagged,
    /// Cannot verify rejected beneficiary.
    CannotVerifyRejected,
    /// Verification period expired.
    VerificationExpired,
    /// Field worker is not authorized.
    UnauthorizedFieldWorker,
    /// Field worker is not active.
    FieldWorkerNotActive,
    /// Only platform admin can perform this action.
    UnauthorizedAdmin,
    /// Only NGO authority can perform this action.
    UnauthorizedNGO,
    /// NGO is not verified.
    NGONotVerified,
    /// NGO is not active.
    NGONotActive,
    /// NGO is blacklisted.
    NGOBlacklisted,
    /// Unauthorized to modify this resource.
    UnauthorizedModification,
    /// Only beneficiary can perform this action.
    UnauthorizedBeneficiary,
    /// Field worker not assigned to this district.
    FieldWorkerNotAssignedToDistrict,
    /// Fund pool has insufficient balance.
    InsufficientPoolBalance,
    /// Insufficient funds in wallet.
    InsufficientFunds,
    /// Distribution is time-locked.
    DistributionLocked,
    /// Pool distribution already completed.
    DistributionAlreadyCompleted,
    /// Distribution not found for beneficiary.
    DistributionNotFound,
    /// Distribution already claimed.
    DistributionAlreadyClaimed,
    /// Pool registration phase is locked, cannot register more beneficiaries.
    RegistrationPhaseLocked,
    /// Distribution phase not active, pool registration must be locked first.
    DistributionPhaseNotActive,
    /// Beneficiary already registered for this pool.
    BeneficiaryAlreadyRegisteredForPool,
    /// Pool registration is not locked, must lock before distribution.
    PoolRegistrationNotLocked,
    /// Beneficiary not registered for this pool.
    BeneficiaryNotRegisteredForPool,
    /// Token is already in the allowed tokens list.
    TokenAlreadyAllowed,
    /// Maximum number of allowed tokens reached.
    MaxAllowedTokensReached,
    /// Cannot remove the primary token (USDC).
    CannotRemovePrimaryToken,
    /// Token is not in the allowed tokens list.
    TokenNotInAllowedList,
    /// Pool is not active.
    PoolNotActive,
    /// Pool is closed.
    PoolClosed,
    /// Invalid distribution type.
    InvalidDistributionType,
    /// Donation amount below minimum.
    DonationBelowMinimum,
    /// Donation amount exceeds maximum.
    DonationExceedsMaximum,
    /// Invalid token mint.
    InvalidTokenMint,
    /// Token account mismatch.
    TokenAccountMismatch,
    /// Platform fee calculation error.
    PlatformFeeError,
    /// Cannot distribute to zero beneficiaries.
    NoBeneficiariesForDistribution,
    /// Disaster event is not active.
    DisasterNotActive,
    /// Disaster event not found.
    DisasterNotFound,
    /// Disaster event already exists.
    DisasterAlreadyExists,
    /// Cannot modify closed disaster.
    CannotModifyClosedDisaster,
    /// Invalid disaster severity (must be 1-10).
    InvalidDisasterSeverity,
    /// Disaster has active pools, cannot close.
    DisasterHasActivePools,
    /// Only admin or verified NGO can create disasters.
    UnauthorizedDisasterCreation,
    /// Duplicate beneficiary registration detected.
    DuplicateRegistration,
    /// Phone number already registered for this disaster.
    DuplicatePhoneNumber,
    /// National ID already registered for this disaster.
    DuplicateNationalId,
    /// Household ID already has maximum members.
    HouseholdMaxMembersReached,
    /// Beneficiary already registered for this disaster.
    BeneficiaryAlreadyRegistered,
    /// Similar address detected, manual review required.
    SimilarAddressDetected,
    /// Invalid family size (must be 1-50).
    InvalidFamilySize,
    /// Invalid damage severity (must be 1-10).
    InvalidDamageSeverity,
    /// Invalid phone number format.
    InvalidPhoneNumber,
    /// Invalid national ID format.
    InvalidNationalId,
    /// Invalid location coordinates.
    InvalidLocationCoordinates,
    /// Invalid IPFS hash format.
    InvalidIpfsHash,
    /// Invalid time lock duration.
    InvalidTimeLockDuration,
    /// Invalid distribution percentages (must sum to 100).
    InvalidDistributionPercentages,
    /// Invalid pool configuration.
    InvalidPoolConfiguration,
    /// Invalid eligibility criteria.
    InvalidEligibilityCriteria,
    /// String exceeds maximum length.
    StringTooLong,
    /// Vector exceeds maximum capacity.
    VectorTooLong,
    /// Invalid age (must be 0-150).
    InvalidAge,
    /// Invalid email format.
    InvalidEmail,
    /// Account already initialized.
    AccountAlreadyInitialized,
    /// Account not initialized.
    AccountNotInitialized,
    /// Invalid account owner.
    InvalidAccountOwner,
    /// Account data mismatch.
    AccountDataMismatch,
    /// PDA derivation failed.
    PDADerivationFailed,
    /// Invalid bump seed.
    InvalidBumpSeed,
    /// Platform is paused.
    PlatformPaused,
    /// Platform configuration not initialized.
    PlatformNotInitialized,
    /// Invalid platform fee percentage.
    InvalidPlatformFee,
    /// Platform fee recipient not set.
    PlatformFeeRecipientNotSet,
    /// Admin transfer already pending.
    TransferAlreadyPending,
    /// No admin transfer pending.
    NoTransferPending,
    /// Admin transfer has expired.
    TransferExpired,
    /// Only pending admin can accept transfer.
    NotPendingAdmin,
    /// Batch size exceeds maximum of 20.
    BatchSizeTooLarge,
    /// Beneficiary flagged for suspicious activity.
    SuspiciousActivity,
    /// Too many registrations from same location.
    TooManyRegistrationsFromLocation,
    /// Registration velocity exceeded.
    RegistrationVelocityExceeded,
    /// Biometric hash mismatch.
    BiometricMismatch,
    /// Document verification failed.
    DocumentVerificationFailed,
    /// Flagged reason required.
    FlaggedReasonRequired,
    /// Cannot unflag without admin review.
    CannotUnflagWithoutReview,
    /// Action not allowed yet (time-locked).
    ActionTimeLocked,
    /// Action deadline passed.
    ActionDeadlinePassed,
    /// Invalid timestamp.
    InvalidTimestamp,
    /// Time lock not expired.
    TimeLockNotExpired,
    /// Distribution window closed.
    DistributionWindowClosed,
    /// Arithmetic overflow.
    ArithmeticOverflow,
    /// Arithmetic underflow.
    ArithmeticUnderflow,
    /// Division by zero.
    DivisionByZero,
    /// Invalid calculation result.
    InvalidCalculation,
    /// Operation not allowed.
    OperationNotAllowed,
    /// Invalid operation for current state.
    InvalidOperation,
    /// Feature not implemented.
    NotImplemented,
    /// Invalid input parameter.
    InvalidInput,
    /// Resource not found.
    ResourceNotFound,
    /// Operation failed.
    OperationFailed,
    /// Unexpected error occurred.
    UnexpectedError,
    /// Distribution has not expired yet.
    DistributionNotExpired,
    /// Distribution already expired/reclaimed.
    DistributionAlreadyExpired,
    /// Distribution has been partially claimed, cannot reclaim.
    DistributionPartiallyClaimed,
    /// Manager already exists in the list.
    ManagerAlreadyExists,
    /// Manager not found in the list.
    ManagerNotFound,
    /// Maximum number of managers reached.
    MaxManagersReached,
    /// Cannot add admin as manager.
    CannotAddAdminAsManager,
    /// Only admin or manager can perform this action.
    UnauthorizedAdminOrManager,
    /// Only admin can perform this action (managers not allowed).
    AdminOnlyAction,
    /// NGO has reached pool creation limit.
    PoolLimitReached,
    /// NGO has reached beneficiary registration limit.
    BeneficiaryLimitReached,
    /// Invalid location data.
    InvalidLocationData,
}

} // verus!
