pub mod address;
pub mod errors;
pub mod instructions;
pub mod laws;
pub mod ledger;
pub mod program_address;
pub mod state;
pub mod text;

pub use address::Address;
pub use errors::ErrorCode;
pub use state::admin_action::AdminAction;
pub use state::beneficiary::Beneficiary;
pub use state::disaster::DisasterEvent;
pub use state::distribution::Distribution;
pub use state::donation_record::DonationRecord;
pub use state::duplicate_registry::{NationalIdRegistry, PhoneRegistry};
pub use state::enums::{
    AdminActionType, DisasterType, DistributionType, DonationType, VerificationStatus,
};
pub use state::field_worker::FieldWorker;
pub use state::fund_pool::{FundPool, PoolPhase};
pub use state::location::Location;
pub use state::ngo::NGO;
pub use state::platform_config::PlatformConfig;
pub use state::pool_registration::PoolRegistration;
pub use state::token_account::{RecordInfo, TokenAccountInfo};
