//! The resource sets of the system program's instructions.

use vstd::prelude::*;
use crate::anchor::context::CpiContext;
use crate::anchor::traits::{Id, ToAccountInfos, ToAccountMetas};
use crate::program::account_info::{same_account, AccountInfo};
use crate::program::error::Error;
use crate::program::instruction::AccountMeta;
use crate::program::pubkey::Pubkey;

verus! {

/// The system program.
#[derive(Clone, Copy, Debug)]
pub struct System;

impl Id for System {
    /// The system program's key.
    fn id() -> (key: Pubkey)
        ensures
            key.t@ == seq![0u8],
    {
        Pubkey::default()
    }
}

/// The accounts of a transfer.
#[derive(Debug)]
pub struct Transfer<'info> {
    pub from: AccountInfo<'info>,
    pub to: AccountInfo<'info>,
}

/// The accounts of the creation of an account.
#[derive(Debug)]
pub struct CreateAccount<'info> {
    pub from: AccountInfo<'info>,
    pub to: AccountInfo<'info>,
}

/// The account of an allocation.
#[derive(Debug)]
pub struct Allocate<'info> {
    pub account_to_allocate: AccountInfo<'info>,
}

/// The account of an assignment.
#[derive(Debug)]
pub struct Assign<'info> {
    pub account_to_assign: AccountInfo<'info>,
}

/// Who signs for the first account: `is_signer` if given, else the account.
pub open spec fn signs(is_signer: Option<bool>, account: AccountInfo) -> bool {
    match is_signer {
        Some(s) => s,
        None => account.is_signer,
    }
}

/// The account `info` as an instruction names it, signing as `is_signer` says.
pub open spec fn meta_of(info: AccountInfo, is_signer: bool) -> AccountMeta {
    AccountMeta { pubkey: *info.key, is_signer, is_writable: info.is_writable }
}

impl ToAccountMetas for Transfer<'_> {
    /// The accounts as the instruction names them: the sender, which signs
    /// as asked, then the receiver, which does not sign.
    fn to_account_metas(&self, is_signer: Option<bool>) -> (metas: Vec<AccountMeta>)
        ensures
            metas@ == seq![meta_of(self.from, signs(is_signer, self.from)), meta_of(self.to, false)],
    {
        let is_signer = match is_signer {
            Some(s) => s,
            None => self.from.is_signer,
        };
        let from = self.from.to_account_meta(is_signer);
        let to = self.to.to_account_meta(false);
        let mut metas: Vec<AccountMeta> = Vec::new();
        metas.push(from);
        metas.push(to);
        assert(metas@ =~= seq![meta_of(self.from, is_signer), meta_of(self.to, false)]);
        metas
    }
}

impl ToAccountMetas for CreateAccount<'_> {
    /// The accounts as the instruction names them: the payer, which signs
    /// as asked, then the new account, which does not sign.
    fn to_account_metas(&self, is_signer: Option<bool>) -> (metas: Vec<AccountMeta>)
        ensures
            metas@ == seq![meta_of(self.from, signs(is_signer, self.from)), meta_of(self.to, false)],
    {
        let is_signer = match is_signer {
            Some(s) => s,
            None => self.from.is_signer,
        };
        let from = self.from.to_account_meta(is_signer);
        let to = self.to.to_account_meta(false);
        let mut metas: Vec<AccountMeta> = Vec::new();
        metas.push(from);
        metas.push(to);
        assert(metas@ =~= seq![meta_of(self.from, is_signer), meta_of(self.to, false)]);
        metas
    }
}

impl ToAccountMetas for Allocate<'_> {
    /// The account as the instruction names it, signing as asked.
    fn to_account_metas(&self, is_signer: Option<bool>) -> (metas: Vec<AccountMeta>)
        ensures
            metas@ == seq![
                meta_of(self.account_to_allocate, signs(is_signer, self.account_to_allocate)),
            ],
    {
        let is_signer = match is_signer {
            Some(s) => s,
            None => self.account_to_allocate.is_signer,
        };
        let meta = self.account_to_allocate.to_account_meta(is_signer);
        let mut metas: Vec<AccountMeta> = Vec::new();
        metas.push(meta);
        assert(metas@ =~= seq![meta_of(self.account_to_allocate, is_signer)]);
        metas
    }
}

impl ToAccountMetas for Assign<'_> {
    /// The account as the instruction names it, signing as asked.
    fn to_account_metas(&self, is_signer: Option<bool>) -> (metas: Vec<AccountMeta>)
        ensures
            metas@ == seq![
                meta_of(self.account_to_assign, signs(is_signer, self.account_to_assign)),
            ],
    {
        let is_signer = match is_signer {
            Some(s) => s,
            None => self.account_to_assign.is_signer,
        };
        let meta = self.account_to_assign.to_account_meta(is_signer);
        let mut metas: Vec<AccountMeta> = Vec::new();
        metas.push(meta);
        assert(metas@ =~= seq![meta_of(self.account_to_assign, is_signer)]);
        metas
    }
}

impl<'info> ToAccountInfos<'info> for Transfer<'info> {
    /// Copies of the descriptions of the sender and the receiver.
    fn to_account_infos(&self) -> (infos: Vec<AccountInfo<'info>>)
        ensures
            infos@.len() == 2,
            same_account(infos@[0], self.from),
            same_account(infos@[1], self.to),
    {
        let mut infos: Vec<AccountInfo<'info>> = Vec::new();
        infos.push(self.from.clone());
        infos.push(self.to.clone());
        infos
    }
}

impl<'info> ToAccountInfos<'info> for CreateAccount<'info> {
    /// Copies of the descriptions of the payer and the new account.
    fn to_account_infos(&self) -> (infos: Vec<AccountInfo<'info>>)
        ensures
            infos@.len() == 2,
            same_account(infos@[0], self.from),
            same_account(infos@[1], self.to),
    {
        let mut infos: Vec<AccountInfo<'info>> = Vec::new();
        infos.push(self.from.clone());
        infos.push(self.to.clone());
        infos
    }
}

impl<'info> ToAccountInfos<'info> for Allocate<'info> {
    /// A copy of the account's description, alone in a list.
    fn to_account_infos(&self) -> (infos: Vec<AccountInfo<'info>>)
        ensures
            infos@.len() == 1,
            same_account(infos@[0], self.account_to_allocate),
    {
        let mut infos: Vec<AccountInfo<'info>> = Vec::new();
        infos.push(self.account_to_allocate.clone());
        infos
    }
}

impl<'info> ToAccountInfos<'info> for Assign<'info> {
    /// A copy of the account's description, alone in a list.
    fn to_account_infos(&self) -> (infos: Vec<AccountInfo<'info>>)
        ensures
            infos@.len() == 1,
            same_account(infos@[0], self.account_to_assign),
    {
        let mut infos: Vec<AccountInfo<'info>> = Vec::new();
        infos.push(self.account_to_assign.clone());
        infos
    }
}

/// Moves `_lamports` from the sender to the receiver.  The model moves
/// nothing and reports success.
pub fn transfer<'info>(_ctx: CpiContext<'_, '_, '_, 'info, Transfer<'info>>, _lamports: u64) -> (r:
    Result<(), Error>)
    ensures
        r is Ok,
{
    Ok(())
}

/// Creates an account.  The model creates nothing and reports success.
pub fn create_account<'info>(
    _ctx: CpiContext<'_, '_, '_, 'info, CreateAccount<'info>>,
    _lamports: u64,
    _space: u64,
    _program: &Pubkey,
) -> (r: Result<(), Error>)
    ensures
        r is Ok,
{
    Ok(())
}

/// Allocates space in an account.  The model allocates nothing and reports
/// success.
pub fn allocate<'info>(_ctx: CpiContext<'_, '_, '_, 'info, Allocate<'info>>, _space: u64) -> (r:
    Result<(), Error>)
    ensures
        r is Ok,
{
    Ok(())
}

/// Assigns an account to a program.  The model assigns nothing and reports
/// success.
pub fn assign<'info>(_ctx: CpiContext<'_, '_, '_, 'info, Assign<'info>>, _program_id: &Pubkey) -> (r:
    Result<(), Error>)
    ensures
        r is Ok,
{
    Ok(())
}

} // verus!
