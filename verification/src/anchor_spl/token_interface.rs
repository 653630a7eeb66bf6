//! The resource types of the token programs.  They hold nothing: a harness
//! reasons about the accounts, not about what the token programs keep.

use vstd::prelude::*;

verus! {

/// A mint.
#[derive(Clone, Copy, Debug, PartialEq, Eq, Structural)]
pub struct Mint;

/// A token account.
#[derive(Clone, Copy, Debug, PartialEq, Eq, Structural)]
pub struct TokenAccount;

/// The interface of the token programs.
#[derive(Clone, Copy, Debug, PartialEq, Eq, Structural)]
pub struct TokenInterface;

/// A set of accounts that can be closed.
pub trait AccountsClose {

}

} // verus!
