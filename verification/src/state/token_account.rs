use crate::address::Address;
use vstd::prelude::*;

verus! {

/// What the rules read of an account in the token ledger: where it is, which
/// token it holds, and whose it is.
#[derive(Clone, Copy, Debug, PartialEq, Eq)]
pub struct TokenAccountInfo {
    /// The address of the token account itself.
    pub key: Address,
    /// The token it holds.
    pub mint: Address,
    /// The wallet or record that controls it.
    pub owner: Address,
}

/// What the rules read of a record that is handed in beside a call: where it
/// is, and which program keeps it.
#[derive(Clone, Copy, Debug, PartialEq, Eq)]
pub struct RecordInfo {
    /// The address of the record.
    pub key: Address,
    /// The program that owns the record.
    pub owner: Address,
}

} // verus!
