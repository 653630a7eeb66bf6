//! What the accessor types and the resource sets have in common.

use vstd::prelude::*;
use crate::program::account_info::AccountInfo;
use crate::program::instruction::AccountMeta;
use crate::program::pubkey::Pubkey;

verus! {

/// A thing that stands for one account.
pub trait ToAccountInfo<'info> {
    /// The account.
    fn to_account_info(&self) -> AccountInfo<'info>;
}

/// A thing that stands for a list of accounts.
pub trait ToAccountInfos<'info> {
    /// The accounts, in order.
    fn to_account_infos(&self) -> Vec<AccountInfo<'info>>;
}

/// A thing whose accounts an instruction can name.
pub trait ToAccountMetas {
    /// The accounts as an instruction names them.  `is_signer` says whether
    /// the first of them signs; without it the account itself says so.
    fn to_account_metas(&self, is_signer: Option<bool>) -> Vec<AccountMeta>;
}

/// A resource type that a program owns.
pub trait Owner {
    /// The key of the owning program.
    fn owner() -> Pubkey;
}

/// A program with a key.
pub trait Id {
    /// The program's key.
    fn id() -> Pubkey;
}

/// A set of accounts that is checked once more when the handler is done.
pub trait AccountsExit<'info>: ToAccountMetas + ToAccountInfos<'info> {
    /// Checks the accounts after the handler ran.
    fn exit(&self, _program_id: &Pubkey) -> Result<(), crate::program::error::Error>;
}

} // verus!
