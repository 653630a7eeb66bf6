//! What has a key.

use vstd::prelude::*;
use crate::program::pubkey::Pubkey;

verus! {

/// A thing that is known by a key.
pub trait Key {
    /// The key.
    fn key(&self) -> Pubkey;
}

} // verus!
