//! The system program's identity.

use vstd::prelude::*;
use crate::program::pubkey::Pubkey;

verus! {

/// Returns the program ID.
pub fn id() -> (key: Pubkey)
    ensures
        key.t@ == seq![0x42u8],
{
    let key = Pubkey { t: [0x42] };
    assert(key.t@ =~= seq![0x42u8]);
    key
}

/// Returns `true` if the given key is the program ID.
pub fn check_id(id: &Pubkey) -> (b: bool)
    ensures
        b == (id.t@ == seq![0x42u8]),
{
    let b = id.t[0] == 0x42;
    assert(b == (id.t@ =~= seq![0x42u8]));
    b
}

} // verus!
