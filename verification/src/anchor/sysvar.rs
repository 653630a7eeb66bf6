//! The accessor of a system variable.

use vstd::prelude::*;
use crate::anchor::traits::ToAccountInfo;
use crate::program::account_info::{same_account, AccountInfo};

verus! {

/// The account of a system variable, with the value it holds.
pub struct Sysvar<'info, T> {
    info: AccountInfo<'info>,
    account: T,
}

impl<'info, T> Sysvar<'info, T> {
    /// The account behind the accessor.
    pub closed spec fn info(&self) -> AccountInfo<'info> {
        self.info
    }

    /// The value behind the accessor.
    pub closed spec fn value(&self) -> T {
        self.account
    }

    /// The accessor of the account `info` that holds `account`.
    pub fn new(info: AccountInfo<'info>, account: T) -> (r: Self)
        ensures
            r.info() == info,
            r.value() == account,
    {
        Self { info, account }
    }

    /// The value that the variable holds.
    pub fn get(&self) -> (account: &T)
        ensures
            *account == self.value(),
    {
        &self.account
    }
}

impl<'info, T> ToAccountInfo<'info> for Sysvar<'info, T> {
    /// A copy of the account's description.
    fn to_account_info(&self) -> (info: AccountInfo<'info>)
        ensures
            same_account(info, self.info()),
    {
        self.info.clone()
    }
}

} // verus!
