use crate::pubkey::Pubkey;
use vstd::prelude::*;

verus! {

/// An account of the program on the ledger: its balance and the record it
/// holds. An account without a record has not been created yet or has been
/// closed.
#[derive(Clone, Debug, PartialEq, Eq)]
pub struct Account<T> {
    /// The balance, in lamports.
    pub lamports: u64,
    /// The record, while the account exists.
    pub data: Option<T>,
}

/// An account that holds a balance and no record: a depositor, the manager
/// or a destination.
#[derive(Clone, Copy, Debug, PartialEq, Eq)]
pub struct SystemAccount {
    /// The address of the account.
    pub key: Pubkey,
    /// The balance, in lamports.
    pub lamports: u64,
}

} // verus!
