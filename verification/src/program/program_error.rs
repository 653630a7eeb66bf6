//! The errors that a program reports to its caller.

use vstd::prelude::*;

verus! {

/// Why a program gave up.
#[derive(Clone, Copy, Debug, PartialEq, Eq, Structural)]
pub enum ProgramError {
    /// The account's data is not what the program expects.
    InvalidAccountData,
    /// The account was never initialized.
    UninitializedAccount,
    /// The instruction names fewer accounts than the program needs.
    NotEnoughAccountKeys,
}

} // verus!
