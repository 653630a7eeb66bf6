//! The accessor of an account that signed the transaction.

use vstd::prelude::*;
use crate::anchor::traits::ToAccountInfo;
use crate::program::account_info::{same_account, AccountInfo};
use crate::program::key::Key;
use crate::program::pubkey::Pubkey;

verus! {

/// An account that signed the transaction.
#[derive(Debug)]
pub struct Signer<'info> {
    /// The account as a program sees it.
    pub info: AccountInfo<'info>,
    /// The account's key.
    pub key: &'info Pubkey,
}

impl<'info> Key for Signer<'info> {
    /// The account's key.
    fn key(&self) -> (key: Pubkey)
        ensures
            key == *self.info.key,
    {
        self.info.key()
    }
}

impl<'info> ToAccountInfo<'info> for Signer<'info> {
    /// A copy of the account's description.
    fn to_account_info(&self) -> (info: AccountInfo<'info>)
        ensures
            same_account(info, self.info),
    {
        self.info.clone()
    }
}

} // verus!
