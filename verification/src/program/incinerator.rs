//! The incinerator: what is credited to its address is burned at the end of
//! the current block.

use vstd::prelude::*;
use crate::program::pubkey::Pubkey;

verus! {

/// The incinerator's address.
pub fn id() -> (key: Pubkey)
    ensures
        key.t@ == seq![0x31u8],
{
    let key = Pubkey { t: [0x31] };
    assert(key.t@ =~= seq![0x31u8]);
    key
}

/// Returns `true` if the given key is the incinerator's address.
pub fn check_id(pubkey: &Pubkey) -> (b: bool)
    ensures
        b == (pubkey.t@ == seq![0x31u8]),
{
    let b = pubkey.t[0] == 0x31;
    assert(b == (pubkey.t@ =~= seq![0x31u8]));
    b
}

} // verus!
