//! The resource set of a checked token transfer.

use vstd::prelude::*;
use crate::anchor::context::CpiContext;
use crate::anchor::system_program::{meta_of, signs};
use crate::anchor::traits::{ToAccountInfos, ToAccountMetas};
use crate::program::account_info::{same_account, AccountInfo};
use crate::program::error::Error;
use crate::program::instruction::AccountMeta;

verus! {

/// The accounts of a checked transfer.
#[derive(Debug)]
pub struct TransferChecked<'info> {
    pub from: AccountInfo<'info>,
    pub to: AccountInfo<'info>,
    pub mint: AccountInfo<'info>,
    pub authority: AccountInfo<'info>,
}

impl ToAccountMetas for TransferChecked<'_> {
    /// The accounts as the instruction names them: the sender, which signs
    /// as asked, then the receiver, the mint and the authority, which do not
    /// sign.
    fn to_account_metas(&self, is_signer: Option<bool>) -> (metas: Vec<AccountMeta>)
        ensures
            metas@ == seq![
                meta_of(self.from, signs(is_signer, self.from)),
                meta_of(self.to, false),
                meta_of(self.mint, false),
                meta_of(self.authority, false),
            ],
    {
        let is_signer = match is_signer {
            Some(s) => s,
            None => self.from.is_signer,
        };
        let from = self.from.to_account_meta(is_signer);
        let to = self.to.to_account_meta(false);
        let mint = self.mint.to_account_meta(false);
        let authority = self.authority.to_account_meta(false);
        let mut metas: Vec<AccountMeta> = Vec::new();
        metas.push(from);
        metas.push(to);
        metas.push(mint);
        metas.push(authority);
        assert(metas@ =~= seq![
            meta_of(self.from, is_signer),
            meta_of(self.to, false),
            meta_of(self.mint, false),
            meta_of(self.authority, false),
        ]);
        metas
    }
}

impl<'info> ToAccountInfos<'info> for TransferChecked<'info> {
    /// Copies of the descriptions of the sender, the receiver, the mint and
    /// the authority.
    fn to_account_infos(&self) -> (infos: Vec<AccountInfo<'info>>)
        ensures
            infos@.len() == 4,
            same_account(infos@[0], self.from),
            same_account(infos@[1], self.to),
            same_account(infos@[2], self.mint),
            same_account(infos@[3], self.authority),
    {
        let mut infos: Vec<AccountInfo<'info>> = Vec::new();
        infos.push(self.from.clone());
        infos.push(self.to.clone());
        infos.push(self.mint.clone());
        infos.push(self.authority.clone());
        infos
    }
}

/// Moves tokens after checking the mint and its decimals.  The model moves
/// nothing and reports success.
pub fn transfer_checked<'info>(
    _ctx: CpiContext<'_, '_, '_, 'info, TransferChecked<'info>>,
    _amount: u64,
    _decimals: u8,
) -> (r: Result<(), Error>)
    ensures
        r is Ok,
{
    Ok(())
}

} // verus!
