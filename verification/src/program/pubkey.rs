//! Keys that name accounts.  A key is one byte wide, which is enough to tell
//! accounts apart within the bounds of a harness.

use vstd::prelude::*;
use vstd::std_specs::cmp::PartialEqSpecImpl;

verus! {

/// The number of bytes in a key.
pub const PUBKEY_BYTES: usize = 1;

/// The key of an account.
#[derive(Eq, Clone, Copy, PartialOrd, Ord, Debug, Hash)]
pub struct Pubkey {
    pub t: [u8; PUBKEY_BYTES],
}

impl Pubkey {
    /// The key made of the bytes of `k`, which are as many as a key has.
    pub fn new(k: &[u8]) -> (key: Pubkey)
        requires
            k@.len() == PUBKEY_BYTES,
        ensures
            key.t@ == k@,
    {
        let key = Pubkey { t: [k[0]] };
        assert(key.t@ =~= k@);
        key
    }

    /// The key made of the bytes `arr`.
    pub fn new_from_array(arr: [u8; PUBKEY_BYTES]) -> (key: Pubkey)
        ensures
            key.t == arr,
    {
        Pubkey { t: arr }
    }

    /// The bytes of the key.
    pub fn to_bytes(&self) -> (bytes: [u8; PUBKEY_BYTES])
        ensures
            bytes == self.t,
    {
        self.t
    }

    /// The key itself.
    pub fn key(&self) -> (key: Self)
        ensures
            key == *self,
    {
        *self
    }
}

impl PartialEq for Pubkey {
    /// Two keys are equal when their bytes are.
    fn eq(&self, other: &Self) -> (r: bool) {
        self.t[0] == other.t[0]
    }
}

impl PartialEqSpecImpl for Pubkey {
    open spec fn obeys_eq_spec() -> bool {
        true
    }

    open spec fn eq_spec(&self, other: &Self) -> bool {
        self.t[0] == other.t[0]
    }
}

impl Default for Pubkey {
    /// The key whose bytes are all zero.
    fn default() -> (key: Self)
        ensures
            key.t@ == seq![0u8],
    {
        let key = Pubkey { t: [0] };
        assert(key.t@ =~= seq![0u8]);
        key
    }
}

} // verus!
