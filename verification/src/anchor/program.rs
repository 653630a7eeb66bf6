//! The accessor of a program's account.

use vstd::prelude::*;
use std::marker::PhantomData;
use crate::anchor::traits::ToAccountInfo;
use crate::program::account_info::{empty_account, same_account, AccountInfo};
use crate::program::error::Error;
use crate::program::pubkey::Pubkey;

verus! {

/// The account of a program of type `T`.
pub struct Program<'info, T> {
    info: AccountInfo<'info>,
    _phantom: PhantomData<T>,
}

impl<'a, T> Program<'a, T> {
    /// The account behind the accessor.
    pub closed spec fn info(&self) -> AccountInfo<'a> {
        self.info
    }

    /// The accessor of the program's account `info`.
    pub fn new(info: AccountInfo<'a>) -> (r: Self)
        ensures
            r.info() == info,
    {
        Self { info, _phantom: PhantomData }
    }

    /// The address of the program's data: the model gives the account's key.
    pub fn programdata_address(&self) -> (r: Result<Option<Pubkey>, Error>)
        ensures
            r == Ok::<Option<Pubkey>, Error>(Some(*self.info().key)),
    {
        Ok(Some(*self.info.key))
    }
}

impl<'info, T> ToAccountInfo<'info> for Program<'info, T> {
    /// A copy of the account's description.
    fn to_account_info(&self) -> (info: AccountInfo<'info>)
        ensures
            same_account(info, self.info()),
    {
        self.info.clone()
    }
}

impl<'info, T> Default for Program<'info, T> {
    /// The accessor of an empty account.
    fn default() -> (r: Self)
        ensures
            empty_account(r.info()),
    {
        Self { info: AccountInfo::default(), _phantom: PhantomData }
    }
}

} // verus!
