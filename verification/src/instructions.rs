pub mod admin;
pub mod beneficiary;
pub mod disaster;
pub mod distribution;
pub mod donation;
pub mod fund_pool;
pub mod ngo;
pub mod platform;
pub mod pool_registration;
pub mod verification;
