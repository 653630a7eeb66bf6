//! Accessors of the accounts of programs that share an interface.

use vstd::prelude::*;
use crate::anchor::account::Account;
use crate::anchor::program::Program;
use crate::anchor::traits::{ToAccountInfo, ToAccountInfos, ToAccountMetas};
use crate::program::account_info::{same_account, AccountInfo};
use crate::program::error::Error;
use crate::program::instruction::AccountMeta;
use crate::program::key::Key;
use crate::program::pubkey::Pubkey;

verus! {

/// The account of one of the programs that implement the interface `T`.
pub struct Interface<'info, T>(pub Program<'info, T>);

/// An account that one of the programs of an interface owns, with the
/// resource value it holds.
pub struct InterfaceAccount<'info, T> {
    /// The account and its resource value.
    pub account: Account<'info, T>,
    /// The program that owns the account.
    pub owner: Pubkey,
}

impl<'a, T> Interface<'a, T> {
    /// The accessor of the program's account `info`.
    pub fn new(info: AccountInfo<'a>) -> (r: Self)
        ensures
            r.0.info() == info,
    {
        Self(Program::new(info))
    }

    /// The address of the program's data: the model gives the account's key.
    pub fn programdata_address(&self) -> (r: Result<Option<Pubkey>, Error>)
        ensures
            r == Ok::<Option<Pubkey>, Error>(Some(*self.0.info().key)),
    {
        self.0.programdata_address()
    }
}

impl<'info, T> ToAccountInfo<'info> for Interface<'info, T> {
    /// A copy of the account's description.
    fn to_account_info(&self) -> (info: AccountInfo<'info>)
        ensures
            same_account(info, self.0.info()),
    {
        self.0.to_account_info()
    }
}

impl<'a, T> InterfaceAccount<'a, T> {
    /// The accessor of the account `info` that holds `account`; its owner is
    /// the owner of the account.
    pub fn new(info: AccountInfo<'a>, account: T) -> (r: Self)
        ensures
            r.owner == *info.owner,
            r.account.info == info,
            r.account.account == account,
    {
        let owner = *info.owner;
        Self { account: Account::new(info, account), owner }
    }

    /// Reads the resource value again from the account's data.  The model
    /// keeps the value as it is.
    pub fn reload(&mut self) -> (r: Result<(), Error>)
        ensures
            r is Ok,
            *final(self) == *old(self),
    {
        self.account.reload()
    }

    /// The resource value.
    pub fn into_inner(self) -> (account: T)
        ensures
            account == self.account.account,
    {
        self.account.into_inner()
    }

    /// Puts `inner` in the place of the resource value.
    pub fn set_inner(&mut self, inner: T)
        ensures
            final(self).account.account == inner,
            final(self).account.info == old(self).account.info,
            final(self).owner == old(self).owner,
    {
        self.account.set_inner(inner);
    }
}

impl<'info, T> ToAccountInfo<'info> for InterfaceAccount<'info, T> {
    /// A copy of the account's description.
    fn to_account_info(&self) -> (info: AccountInfo<'info>)
        ensures
            same_account(info, self.account.info),
    {
        self.account.to_account_info()
    }
}

impl<'info, T> ToAccountMetas for InterfaceAccount<'info, T> {
    /// The account as an instruction names it.
    fn to_account_metas(&self, is_signer: Option<bool>) -> (metas: Vec<AccountMeta>)
        ensures
            metas@ == seq![
                AccountMeta {
                    pubkey: *self.account.info.key,
                    is_signer: match is_signer {
                        Some(s) => s,
                        None => self.account.info.is_signer,
                    },
                    is_writable: self.account.info.is_writable,
                },
            ],
    {
        self.account.to_account_metas(is_signer)
    }
}

impl<'info, T> ToAccountInfos<'info> for InterfaceAccount<'info, T> {
    /// A copy of the account's description, alone in a list.
    fn to_account_infos(&self) -> (infos: Vec<AccountInfo<'info>>)
        ensures
            infos@.len() == 1,
            same_account(infos@[0], self.account.info),
    {
        self.account.to_account_infos()
    }
}

impl<'info, T> Key for InterfaceAccount<'info, T> {
    /// The account's key.
    fn key(&self) -> (key: Pubkey)
        ensures
            key == *self.account.info.key,
    {
        self.account.key()
    }
}

} // verus!
