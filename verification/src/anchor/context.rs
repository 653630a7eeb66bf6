//! The context in which a handler runs: the program's key, the resource set
//! and the accounts that no field of the set names.

use vstd::prelude::*;
use std::marker::PhantomData;
use crate::anchor::traits::{ToAccountInfos, ToAccountMetas};
use crate::program::account_info::AccountInfo;
use crate::program::pubkey::Pubkey;
use crate::program::vec::fast::Vec;

verus! {

/// The bump seeds of the resource set.  Every seed is zero.
#[derive(Clone, Copy, Debug)]
pub struct FakeBumps;

impl FakeBumps {
    /// The bump seed of the field `_name`.
    pub fn get(&self, _name: &str) -> (r: Option<&u8>)
        ensures
            r matches Some(bump) && *bump == 0,
    {
        Some(&0)
    }
}

/// A type that an account accessor can hold.
pub trait AccountType {

}

/// A context that owns its parts, from which a harness lends a `Context`.
#[derive(Debug)]
pub struct ConcreteContext<'a, 'b, 'c, 'info, T> {
    /// The key of the program that runs.
    pub program_id: Pubkey,
    /// The resource set.
    pub accounts: T,
    /// The accounts that no field of the resource set names.
    pub remaining_accounts: Vec<AccountInfo<'info>>,
    pub _a: PhantomData<&'a u8>,
    pub _b: PhantomData<&'b u8>,
    pub _c: PhantomData<&'c u8>,
}

/// The context as a handler takes it.
#[derive(Debug)]
pub struct Context<'a, 'b, 'c, 'info, T> {
    /// The key of the program that runs.
    pub program_id: &'a Pubkey,
    /// The resource set.
    pub accounts: &'b mut T,
    /// The accounts that no field of the resource set names.
    pub remaining_accounts: &'c [AccountInfo<'info>],
    /// The bump seeds of the resource set.
    pub bumps: FakeBumps,
}

impl<'a, 'b, 'c, 'info, T> Context<'a, 'b, 'c, 'info, T> {
    /// The context made of the parts given.
    pub fn new(
        program_id: &'a Pubkey,
        accounts: &'b mut T,
        remaining_accounts: &'c [AccountInfo<'info>],
        bumps: FakeBumps,
    ) -> (ctx: Self)
        ensures
            ctx.program_id == program_id,
            *ctx.accounts == *old(accounts),
            *final(accounts) == *final(ctx.accounts),
            ctx.remaining_accounts == remaining_accounts,
    {
        Self { program_id, accounts, remaining_accounts, bumps }
    }
}

impl<'info, T> ConcreteContext<'_, '_, '_, 'info, T> {
    /// A context that owns the parts given.
    pub fn new(program_id: Pubkey, accounts: T, remaining_accounts: Vec<AccountInfo<'info>>) -> (ctx:
        Self)
        ensures
            ctx.program_id == program_id,
            ctx.accounts == accounts,
            ctx.remaining_accounts == remaining_accounts,
    {
        Self {
            program_id,
            accounts,
            remaining_accounts,
            _a: PhantomData,
            _b: PhantomData,
            _c: PhantomData,
        }
    }

    /// Lends the context to a handler.  What the handler does to the resource
    /// set is done to the set of this context.
    pub fn to_ctx<'a>(&'a mut self) -> (ctx: Context<'a, 'a, 'a, 'info, T>)
        requires
            old(self).remaining_accounts.wf(),
        ensures
            *ctx.program_id == old(self).program_id,
            *ctx.accounts == old(self).accounts,
            ctx.remaining_accounts@ == old(self).remaining_accounts@,
            final(self).accounts == *final(ctx.accounts),
            final(self).program_id == old(self).program_id,
            final(self).remaining_accounts == old(self).remaining_accounts,
    {
        Context {
            program_id: &self.program_id,
            accounts: &mut self.accounts,
            remaining_accounts: self.remaining_accounts.as_slice(),
            bumps: FakeBumps,
        }
    }
}

/// The context of a call from one program into another.
pub struct CpiContext<'a, 'b, 'c, 'info, T> where T: ToAccountMetas + ToAccountInfos<'info> {
    /// The resource set of the call.
    pub accounts: T,
    /// The accounts that no field of the resource set names.
    pub remaining_accounts: Vec<AccountInfo<'info>>,
    /// The account of the program that is called.
    pub program: AccountInfo<'info>,
    /// The seeds of the addresses that sign for the caller.
    pub signer_seeds: &'a [&'b [&'c [u8]]],
}

impl<'a, 'b, 'c, 'info, T> CpiContext<'a, 'b, 'c, 'info, T> where
    T: ToAccountMetas + ToAccountInfos<'info>,
 {
    /// A context without remaining accounts and without signer seeds.
    pub fn new(program: AccountInfo<'info>, accounts: T) -> (ctx: Self)
        ensures
            ctx.accounts == accounts,
            ctx.program == program,
            ctx.remaining_accounts@ == Seq::<AccountInfo<'info>>::empty(),
            ctx.signer_seeds@.len() == 0,
    {
        Self { accounts, program, remaining_accounts: Vec::new(), signer_seeds: &[] }
    }

    /// A context without remaining accounts, with the signer seeds given.
    pub fn new_with_signer(
        program: AccountInfo<'info>,
        accounts: T,
        signer_seeds: &'a [&'b [&'c [u8]]],
    ) -> (ctx: Self)
        ensures
            ctx.accounts == accounts,
            ctx.program == program,
            ctx.remaining_accounts@ == Seq::<AccountInfo<'info>>::empty(),
            ctx.signer_seeds == signer_seeds,
    {
        Self { accounts, program, signer_seeds, remaining_accounts: Vec::new() }
    }

    /// The context with the signer seeds given in the place of its own.
    pub fn with_signer(self, signer_seeds: &'a [&'b [&'c [u8]]]) -> (ctx: Self)
        ensures
            ctx.accounts == self.accounts,
            ctx.program == self.program,
            ctx.remaining_accounts == self.remaining_accounts,
            ctx.signer_seeds == signer_seeds,
    {
        let mut ctx = self;
        ctx.signer_seeds = signer_seeds;
        ctx
    }

    /// The context with the remaining accounts given in the place of its own.
    pub fn with_remaining_accounts(self, ra: Vec<AccountInfo<'info>>) -> (ctx: Self)
        ensures
            ctx.accounts == self.accounts,
            ctx.program == self.program,
            ctx.remaining_accounts == ra,
            ctx.signer_seeds == self.signer_seeds,
    {
        let mut ctx = self;
        ctx.remaining_accounts = ra;
        ctx
    }
}

} // verus!
