//! An account accessor: the account as a program sees it, together with the
//! resource value read from its data.

use vstd::prelude::*;
use crate::anchor::traits::{ToAccountInfo, ToAccountInfos, ToAccountMetas};
use crate::program::account_info::{same_account, AccountInfo};
use crate::program::key::Key;
use crate::program::error::Error;
use crate::program::instruction::AccountMeta;
use crate::program::pubkey::Pubkey;

verus! {

/// An account together with the resource value it holds.
#[derive(Debug)]
pub struct Account<'info, T> {
    /// The resource value.
    pub account: T,
    /// The account as a program sees it.
    pub info: AccountInfo<'info>,
}

impl<'a, T> Account<'a, T> {
    /// The accessor of the account `info` that holds `account`.
    pub fn new(info: AccountInfo<'a>, account: T) -> (r: Account<'a, T>)
        ensures
            r.info == info,
            r.account == account,
    {
        Self { info, account }
    }

    /// Reads the resource value again from the account's data.  The model
    /// keeps the value as it is.
    pub fn reload(&mut self) -> (r: Result<(), Error>)
        ensures
            r is Ok,
            *final(self) == *old(self),
    {
        Ok(())
    }

    /// The resource value.
    pub fn into_inner(self) -> (account: T)
        ensures
            account == self.account,
    {
        self.account
    }

    /// Puts `inner` in the place of the resource value.
    pub fn set_inner(&mut self, inner: T)
        ensures
            final(self).account == inner,
            final(self).info == old(self).info,
    {
        self.account = inner;
    }

    /// Closes the account.  The model reports success.
    pub fn close(self, _info: AccountInfo<'_>) -> (r: Result<(), Error>)
        ensures
            r is Ok,
    {
        Ok(())
    }
}

/// Whether the account `info` can hold a resource value of a type that the
/// program `owner` owns: it has a balance and `owner` owns it.
pub open spec fn holds_resource(info: AccountInfo, owner: Pubkey) -> bool {
    info.lamports@ != 0 && info.owner.t@[0] == owner.t@[0]
}

impl<'a, T> Account<'a, T> {
    /// The accessor of the account `info`, whose resource type the program
    /// `owner` owns, given what reading the account's data gave.  There is
    /// none when the account has no balance, when another program owns it,
    /// or when its data could not be read.
    pub fn try_from(info: &AccountInfo<'a>, owner: &Pubkey, deserialized: Option<T>) -> (r: Result<
        Account<'a, T>,
        Error,
    >)
        ensures
            match r {
                Ok(account) => holds_resource(*info, *owner) && deserialized == Some(
                    account.account,
                ) && same_account(account.info, *info),
                Err(e) => e == Error::AccountDidNotDeserialize && !(holds_resource(*info, *owner)
                    && deserialized is Some),
            },
    {
        if info.lamports() == 0 {
            return Err(Error::AccountDidNotDeserialize);
        }
        if info.owner != owner {
            return Err(Error::AccountDidNotDeserialize);
        }
        match deserialized {
            Some(account) => Ok(Account::new(info.clone(), account)),
            None => Err(Error::AccountDidNotDeserialize),
        }
    }
}

impl<'info, T> ToAccountMetas for Account<'info, T> {
    /// The account as an instruction names it: writable exactly when the
    /// account is, signing as `is_signer` says or, without it, as the
    /// account does.
    fn to_account_metas(&self, is_signer: Option<bool>) -> (metas: Vec<AccountMeta>)
        ensures
            metas@ == seq![
                AccountMeta {
                    pubkey: *self.info.key,
                    is_signer: match is_signer {
                        Some(s) => s,
                        None => self.info.is_signer,
                    },
                    is_writable: self.info.is_writable,
                },
            ],
    {
        let is_signer = match is_signer {
            Some(s) => s,
            None => self.info.is_signer,
        };
        let meta = self.info.to_account_meta(is_signer);
        let mut metas: Vec<AccountMeta> = Vec::new();
        metas.push(meta);
        assert(metas@ =~= seq![meta]);
        metas
    }
}

impl<'info, T> ToAccountInfo<'info> for Account<'info, T> {
    /// A copy of the account's description.
    fn to_account_info(&self) -> (info: AccountInfo<'info>)
        ensures
            same_account(info, self.info),
    {
        self.info.clone()
    }
}

impl<'info, T> ToAccountInfos<'info> for Account<'info, T> {
    /// A copy of the account's description, alone in a list.
    fn to_account_infos(&self) -> (infos: Vec<AccountInfo<'info>>)
        ensures
            infos@.len() == 1,
            same_account(infos@[0], self.info),
    {
        let mut infos: Vec<AccountInfo<'info>> = Vec::new();
        infos.push(self.info.clone());
        infos
    }
}

impl<'info, T> Key for Account<'info, T> {
    /// The account's key.
    fn key(&self) -> (key: Pubkey)
        ensures
            key == *self.info.key,
    {
        *self.info.key
    }
}

} // verus!
