//! What an instruction says of an account it names.

use vstd::prelude::*;
use crate::program::pubkey::Pubkey;

verus! {

/// An account as an instruction names it.
#[derive(Clone, Copy, Debug)]
pub struct AccountMeta {
    /// The account's key.
    pub pubkey: Pubkey,
    /// Whether the account signs the instruction.
    pub is_signer: bool,
    /// Whether the instruction may write to the account.
    pub is_writable: bool,
}

impl AccountMeta {
    /// An account that may be written to.
    pub fn new(pubkey: Pubkey, is_signer: bool) -> (meta: Self)
        ensures
            meta == (AccountMeta { pubkey, is_signer, is_writable: true }),
    {
        AccountMeta { pubkey, is_signer, is_writable: true }
    }

    /// An account that may only be read.
    pub fn new_readonly(pubkey: Pubkey, is_signer: bool) -> (meta: Self)
        ensures
            meta == (AccountMeta { pubkey, is_signer, is_writable: false }),
    {
        AccountMeta { pubkey, is_signer, is_writable: false }
    }
}

} // verus!
