pub mod admin_action;
pub mod beneficiary;
pub mod disaster;
pub mod distribution;
pub mod donation_record;
pub mod duplicate_registry;
pub mod enums;
pub mod field_worker;
pub mod fund_pool;
pub mod location;
pub mod ngo;
pub mod platform_config;
pub mod pool_registration;
pub mod token_account;
