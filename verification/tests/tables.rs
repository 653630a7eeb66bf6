use otter_solana::address_lookup_table::state::{
    AddressLookupTable, LookupTableMeta, LOOKUP_TABLE_MAX_ADDRESSES, LOOKUP_TABLE_META_SIZE,
};
use otter_solana::anchor::sysvar::Sysvar;
use otter_solana::anchor::traits::ToAccountInfo;
use otter_solana::pool::Pool;
use otter_solana::program::account_info::AccountInfo;
use otter_solana::program::collections::hashmap::HashMap;
use otter_solana::program::program_error::ProgramError;
use otter_solana::program::program_memory::MaybeAccountBuf;
use otter_solana::program::program_pack::{Pack, Sealed};
use otter_solana::program::pubkey::Pubkey;
use otter_solana::program::vec::fast::Vec as FastVec;
use otter_solana::program::vec::sparse::Vec as SparseVec;

#[test]
fn lookup_table_is_read_as_a_fresh_table() {
    let table = AddressLookupTable::deserialize(&[1, 2, 3]).unwrap();
    assert_eq!(table.addresses.len(), 1);
    assert_eq!(table.addresses.as_slice()[0], Pubkey::default());
    assert_eq!(table.meta.deactivation_slot, 0);
    assert_eq!(table.meta.last_extended_slot, 0);
    assert_eq!(table.meta.last_extended_slot_start_index, 0);
    assert_eq!(table.meta.authority, None);
    assert_eq!(LookupTableMeta::default()._padding, 0);
    assert_eq!(LOOKUP_TABLE_MAX_ADDRESSES, 256);
    assert_eq!(LOOKUP_TABLE_META_SIZE, 56);
}

#[test]
fn system_variable_holds_its_value() {
    let variable = Sysvar::new(AccountInfo::default(), 17u64);
    assert_eq!(*variable.get(), 17);
    assert_eq!(variable.to_account_info().lamports(), 0);
}

#[test]
fn bounded_vector_from_a_vector() {
    let v = FastVec::from_vec(vec![3u8, 1, 2]);
    assert_eq!(v.as_slice(), &[3, 1, 2]);
    let empty = FastVec::<u8>::from_vec(vec![]);
    assert!(empty.is_empty());
    let full = FastVec::from_vec((0..10u8).collect());
    assert_eq!(full.len(), 10);
    assert!(HashMap::<u8, u8>::default().get(0).is_none());
}

#[test]
fn pool_knows_whether_all_was_repacked() {
    let mut pool: Pool<u8> = Pool::init();
    assert!(pool.all_repacked());
    pool.expect_unpack(1);
    assert!(pool.all_repacked());
    let x = pool.get_next();
    assert!(!pool.all_repacked());
    pool.repack(x);
    assert!(pool.all_repacked());
}

#[test]
fn account_data_is_an_account_buffer() {
    let data: SparseVec<u8> = SparseVec::new_with_size(12);
    let slice = data.as_slice();
    assert!(slice.mb_is_acct());
    assert_eq!(slice.mb_size(), 12);
}

struct Flag(bool);

impl Sealed for Flag {}

impl Pack for Flag {
    const LEN: usize = 1;

    fn pack_into_slice(&self, dst: &mut [u8]) {
        dst[0] = self.0 as u8;
    }

    fn unpack_from_slice(src: &[u8]) -> Result<Self, ProgramError> {
        match src {
            [0] => Ok(Flag(false)),
            [1] => Ok(Flag(true)),
            _ => Err(ProgramError::InvalidAccountData),
        }
    }
}

#[test]
fn packed_length_is_the_declared_length() {
    assert_eq!(Flag::get_packed_len(), 1);
    let mut bytes = [9u8];
    Flag(true).pack_into_slice(&mut bytes);
    assert!(Flag::unpack_from_slice(&bytes).unwrap().0);
    assert_eq!(Flag::unpack_from_slice(&[7]).err(), Some(ProgramError::InvalidAccountData));
}
