//! What a program sees of an account: its key, its owner, its balance and
//! the length of its data.

use vstd::prelude::*;
use std::cell::{BorrowError, BorrowMutError};
use crate::program::error::Error;
use crate::program::instruction::AccountMeta;
use crate::program::key::Key;
use crate::program::pubkey::Pubkey;
use crate::program::stupid_refcell::{StupidRefCell, StupidRefMut};
use crate::program::vec::fast::VecIterator;
use crate::program::vec::sparse::Vec;

verus! {

/// An account as a program sees it.
#[derive(Debug)]
pub struct AccountInfo<'a> {
    /// The account's key.
    pub key: &'a Pubkey,
    /// Whether the account signed the transaction.
    pub is_signer: bool,
    /// Whether the account may be written to.
    pub is_writable: bool,
    /// The account's balance.
    pub lamports: StupidRefCell<u64>,
    /// The account's data, of which only the length is kept.
    pub data: Vec<u8>,
    /// The program that owns the account.
    pub owner: &'a Pubkey,
    /// Whether the account holds a program.
    pub executable: bool,
    /// Whether rent is due.
    pub rent_epoch: bool,
}

impl<'a> AccountInfo<'a> {
    /// The account's data.
    pub fn try_borrow_data(&self) -> (r: Result<&Vec<u8>, Error>)
        ensures
            r matches Ok(data) && *data == self.data,
    {
        Ok(&self.data)
    }

    /// The account's data; nothing can be written through it.
    pub fn try_borrow_mut_data(&self) -> (r: Result<&Vec<u8>, Error>)
        ensures
            r matches Ok(data) && *data == self.data,
    {
        self.try_borrow_data()
    }

    /// The account's balance.
    pub fn lamports(&self) -> (n: u64)
        ensures
            n == self.lamports@,
    {
        *self.lamports.borrow()
    }

    /// The account's balance; the borrow never fails.
    pub fn try_borrow_lamports(&self) -> (r: Result<u64, BorrowError>)
        ensures
            r matches Ok(n) && n == self.lamports@,
    {
        Ok(*self.lamports.borrow())
    }

    /// An exclusive borrow of the account's balance; the borrow never fails.
    pub fn try_borrow_mut_lamports(&mut self) -> (r: Result<StupidRefMut<'_, u64>, BorrowMutError>)
        ensures
            r matches Ok(m) && *m.x == old(self).lamports@ && final(self).lamports@ == *final(m.x),
            final(self).key == old(self).key,
            final(self).owner == old(self).owner,
            final(self).data == old(self).data,
            final(self).is_signer == old(self).is_signer,
            final(self).is_writable == old(self).is_writable,
            final(self).executable == old(self).executable,
            final(self).rent_epoch == old(self).rent_epoch,
    {
        self.lamports.try_borrow_mut()
    }

    /// Changes the length of the data.  The model keeps the length as it is
    /// and reports success.
    pub fn realloc(&self, _new_len: usize, _zero_init: bool) -> (r: Result<(), Error>)
        ensures
            r is Ok,
    {
        Ok(())
    }

    /// The length of the account's data.
    pub fn data_len(&self) -> (n: usize)
        ensures
            n == self.data.size,
    {
        self.data.len()
    }

    /// The account as an instruction names it: writable exactly when the
    /// account is.
    pub fn to_account_meta(&self, is_signer: bool) -> (meta: AccountMeta)
        ensures
            meta == (AccountMeta { pubkey: *self.key, is_signer, is_writable: self.is_writable }),
    {
        if self.is_writable {
            AccountMeta::new(*self.key, is_signer)
        } else {
            AccountMeta::new_readonly(*self.key, is_signer)
        }
    }

}

impl<'a> Key for AccountInfo<'a> {
    /// The account's key.
    fn key(&self) -> (key: Pubkey)
        ensures
            key == *self.key,
    {
        *self.key
    }
}

impl<'a> Clone for AccountInfo<'a> {
    /// A copy of the account's description.
    fn clone(&self) -> (info: Self)
        ensures
            info.key == self.key,
            info.owner == self.owner,
            info.is_signer == self.is_signer,
            info.is_writable == self.is_writable,
            info.lamports@ == self.lamports@,
            info.data.size == self.data.size,
            info.executable == self.executable,
            info.rent_epoch == self.rent_epoch,
    {
        AccountInfo {
            key: self.key,
            is_signer: self.is_signer,
            is_writable: self.is_writable,
            lamports: self.lamports.clone(),
            data: self.data.clone(),
            owner: self.owner,
            executable: self.executable,
            rent_epoch: self.rent_epoch,
        }
    }
}

/// Whether `copy` describes the account as `info` does.
pub open spec fn same_account(copy: AccountInfo, info: AccountInfo) -> bool {
    &&& copy.key == info.key
    &&& copy.owner == info.owner
    &&& copy.is_signer == info.is_signer
    &&& copy.is_writable == info.is_writable
    &&& copy.lamports@ == info.lamports@
    &&& copy.data.size == info.data.size
    &&& copy.executable == info.executable
    &&& copy.rent_epoch == info.rent_epoch
}

/// Whether `info` is an empty account under the key whose bytes are zero,
/// owned by that key.
pub open spec fn empty_account(info: AccountInfo) -> bool {
    &&& info.key.t@ == seq![0u8]
    &&& info.owner.t@ == seq![0u8]
    &&& !info.is_signer
    &&& !info.is_writable
    &&& info.lamports@ == 0
    &&& info.data.size == 0
    &&& !info.executable
    &&& !info.rent_epoch
}

impl Default for AccountInfo<'_> {
    /// An empty account under the key whose bytes are zero, owned by that key.
    fn default() -> (info: Self)
        ensures
            empty_account(info),
    {
        let info = AccountInfo {
            key: &Pubkey { t: [0] },
            is_signer: false,
            is_writable: false,
            lamports: StupidRefCell::new(0),
            data: Vec::new_with_size(0),
            owner: &Pubkey { t: [0] },
            executable: false,
            rent_epoch: false,
        };
        assert(info.key.t@ =~= seq![0u8]);
        assert(info.owner.t@ =~= seq![0u8]);
        info
    }
}

/// The next account of `iter`, or an error when none is left.
pub fn next_account_info<'a, 'b>(iter: &mut VecIterator<'a, AccountInfo<'b>>) -> (r: Result<
    &'a AccountInfo<'b>,
    Error,
>)
    requires
        old(iter).wf(),
    ensures
        final(iter).wf(),
        match r {
            Ok(info) => old(iter).remaining().len() > 0 && *info == old(iter).remaining()[0]
                && final(iter).remaining() == old(iter).remaining().drop_first(),
            Err(e) => e == Error::InstructionMissing && old(iter).remaining().len() == 0
                && final(iter).remaining() == old(iter).remaining(),
        },
{
    match iter.next() {
        Some(info) => Ok(info),
        None => Err(Error::InstructionMissing),
    }
}

} // verus!
