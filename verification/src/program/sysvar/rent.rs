//! The identity of the rent variable.

use vstd::prelude::*;
use crate::program::pubkey::Pubkey;

verus! {

/// The address of the rent variable.
pub fn id() -> (key: Pubkey)
    ensures
        key.t@ == seq![43u8],
{
    let key = Pubkey { t: [43] };
    assert(key.t@ =~= seq![43u8]);
    key
}

} // verus!
