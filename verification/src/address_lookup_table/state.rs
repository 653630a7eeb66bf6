//! The state of an address lookup table.

use vstd::prelude::*;
use crate::program::clock::Slot;
use crate::program::error::Error;
use crate::program::pubkey::Pubkey;
use crate::program::vec::fast::Vec;

verus! {

/// The maximum number of addresses that a lookup table can hold.
pub const LOOKUP_TABLE_MAX_ADDRESSES: usize = 256;

/// The serialized size of lookup table metadata.
pub const LOOKUP_TABLE_META_SIZE: usize = 56;

/// What a lookup table says of itself.
#[derive(Debug, Clone, Copy)]
pub struct LookupTableMeta {
    /// The slot at which the table was deactivated.
    pub deactivation_slot: Slot,
    /// The slot at which the table was last extended.
    pub last_extended_slot: Slot,
    /// The position from which the table was last extended.
    pub last_extended_slot_start_index: u8,
    /// The address that must sign for each change.
    pub authority: Option<Pubkey>,
    pub _padding: u16,
}

impl Default for LookupTableMeta {
    /// A table that was never extended and has no authority.
    fn default() -> (meta: Self)
        ensures
            meta == (LookupTableMeta {
                deactivation_slot: 0,
                last_extended_slot: 0,
                last_extended_slot_start_index: 0,
                authority: None,
                _padding: 0,
            }),
    {
        LookupTableMeta {
            deactivation_slot: 0,
            last_extended_slot: 0,
            last_extended_slot_start_index: 0,
            authority: None,
            _padding: 0,
        }
    }
}

/// A lookup table: what it says of itself, and its addresses.
#[derive(Debug)]
pub struct AddressLookupTable {
    pub meta: LookupTableMeta,
    pub addresses: Vec<Pubkey>,
}

impl AddressLookupTable {
    /// Reads a table from the data of its account.  The model does not look
    /// at the data: every table is a table that was never extended and holds
    /// the one address whose bytes are zero.
    pub fn deserialize(_data: &[u8]) -> (r: Result<Self, Error>)
        ensures
            r matches Ok(table) && table.meta == LookupTableMeta::default_meta()
                && table.addresses.wf() && table.addresses@.len() == 1
                && table.addresses@[0].t@ == seq![0u8],
    {
        let mut addresses: Vec<Pubkey> = Vec::new();
        addresses.push(Pubkey::default());
        Ok(Self { meta: LookupTableMeta::default(), addresses })
    }
}

impl LookupTableMeta {
    /// What a table that was never extended says of itself.
    pub open spec fn default_meta() -> LookupTableMeta {
        LookupTableMeta {
            deactivation_slot: 0,
            last_extended_slot: 0,
            last_extended_slot_start_index: 0,
            authority: None,
            _padding: 0,
        }
    }
}

} // verus!
