use otter_solana::anchor::account::Account;
use otter_solana::anchor::context::{ConcreteContext, FakeBumps};
use otter_solana::anchor::program::Program;
use otter_solana::anchor::signer::Signer;
use otter_solana::anchor::context::CpiContext;
use otter_solana::anchor::interface::{Interface, InterfaceAccount};
use otter_solana::anchor::system_program::{
    allocate, assign, create_account, Allocate, Assign, CreateAccount, System, Transfer,
};
use otter_solana::anchor::traits::{Id, ToAccountInfo, ToAccountInfos, ToAccountMetas};
use otter_solana::anchor_spl::token_2022::transfer_checked;
use otter_solana::program::key::Key;
use otter_solana::anchor_spl::token_2022::TransferChecked;
use otter_solana::anchor_spl::token_interface::{Mint, TokenAccount, TokenInterface};
use otter_solana::pool::Pool;
use otter_solana::program::account_info::{next_account_info, AccountInfo};
use otter_solana::program::collections::hashmap::HashMap;
use otter_solana::program::error::Error;
use otter_solana::program::fake::{FakeArrRef, FakeRef, MutFakeRef};
use otter_solana::program::program_error::ProgramError;
use otter_solana::program::program_memory::{sol_memcmp, sol_memset, sol_memset_acct};
use otter_solana::program::program_pack::{pack, unpack, unpack_unchecked, IsInitialized};
use otter_solana::program::pubkey::{Pubkey, PUBKEY_BYTES};
use otter_solana::program::stupid_refcell::StupidRefCell;
use otter_solana::program::vec::fast::{from_hex, val, Vec as FastVec, VecIntoIterator, VEC_SIZE};
use otter_solana::program::vec::sparse::{SparseSlice, Vec as SparseVec};
use otter_solana::program::{incinerator, string, system_program, sysvar};
use std::marker::PhantomData;

fn info<'a>(key: &'a Pubkey, owner: &'a Pubkey, writable: bool, signer: bool) -> AccountInfo<'a> {
    AccountInfo {
        key,
        is_signer: signer,
        is_writable: writable,
        lamports: StupidRefCell::new(5),
        data: SparseVec::new_with_size(32),
        owner,
        executable: false,
        rent_epoch: false,
    }
}

#[test]
fn fast_vector_keeps_order() {
    let mut v: FastVec<u32> = FastVec::new();
    assert!(v.is_empty());
    v.push(1);
    v.push(3);
    assert_eq!(v.data, [1, 3, 0, 0, 0, 0, 0, 0, 0, 0]);
    v.data[5] = 9;
    v.push(7);
    assert_eq!(v.data, [1, 3, 7, 0, 0, 9, 0, 0, 0, 0]);
    v.remove(2);
    assert_eq!(v.data, [1, 3, 7, 0, 0, 9, 0, 0, 0, 0]);
    assert_eq!(v.len(), 2);
    v.insert(1, 2);
    assert_eq!(v.data, [1, 2, 3, 0, 0, 9, 0, 0, 0, 0]);
    v.insert(0, 0);
    assert_eq!(v.data, [0, 1, 2, 3, 0, 9, 0, 0, 0, 0]);
    assert_eq!(v.as_slice(), &[0, 1, 2, 3]);
    assert_eq!(v.len(), 4);
    assert!(v.contains(&2));
    assert!(!v.contains(&9));
    assert_eq!(v.binary_search(&2), Ok(2));
    assert_eq!(v.binary_search(&9), Err(4));
    v.remove(1);
    assert_eq!(v.as_slice(), &[0, 2, 3]);
    v.sort();
    v.dedup();
    assert_eq!(v.as_slice(), &[0, 2, 3]);
    v.extend_from_slice(&[7, 8]);
    assert_eq!(v.as_slice(), &[0, 2, 3, 7, 8]);
    v.remove(4);
    assert_eq!(v.as_slice(), &[0, 2, 3, 7]);
    let with: FastVec<u8> = FastVec::with_capacity(3);
    assert_eq!(with.len(), 0);
    assert_eq!(VEC_SIZE, 10);
}

#[test]
fn fast_vector_is_walked_in_order() {
    let mut v: FastVec<u8> = FastVec::new();
    v.extend_from_slice(&[4, 5, 6]);
    let mut it = v.iter();
    assert_eq!(it.next(), Some(&4));
    assert_eq!(it.next(), Some(&5));
    assert_eq!(it.next(), Some(&6));
    assert_eq!(it.next(), None);
    assert_eq!(it.next(), None);
    let mut owned = VecIntoIterator::new(v);
    assert_eq!(owned.next(), Some(4));
    assert_eq!(owned.next(), Some(5));
    assert_eq!(owned.next(), Some(6));
    assert_eq!(owned.next(), None);
}

#[test]
fn hexadecimal_text_is_decoded() {
    assert_eq!(from_hex(b"00ff1A").unwrap().as_slice(), &[0x00, 0xff, 0x1a]);
    assert_eq!(from_hex(b"").unwrap().len(), 0);
    assert_eq!(from_hex(b"abc").unwrap_err(), Error::Generic);
    assert_eq!(from_hex(b"0g").unwrap_err(), Error::Generic);
    assert_eq!(from_hex(b"00112233445566778899").unwrap().len(), 10);
    assert_eq!(from_hex(b"00112233445566778899zz").unwrap_err(), Error::Generic);
    assert_eq!(val(b'7').unwrap(), 7);
    assert_eq!(val(b'c').unwrap(), 12);
    assert_eq!(val(b'F').unwrap(), 15);
    assert_eq!(val(b' ').unwrap_err(), Error::Generic);
}

#[test]
fn sparse_vector_knows_its_length_only() {
    let v: SparseVec<u8> = SparseVec::new_with_size(7);
    assert_eq!(v.len(), 7);
    assert!(!v.is_empty());
    assert_eq!(v.as_slice().len(), 7);
    assert_eq!(v.borrow().len(), 7);
    assert_eq!(v.borrow_mut().len(), 7);
    let mut empty: SparseVec<u8> = SparseVec::new();
    empty.sort();
    empty.dedup();
    assert!(empty.is_empty());
    assert!(empty.as_slice().is_empty());
    assert_eq!(v.clone().len(), 7);
}

#[test]
fn map_finds_first_entry_of_a_key() {
    let mut map: HashMap<u8, u32> = HashMap::new();
    assert_eq!(map.get(1), None);
    map.insert(1, 10);
    map.insert(2, 20);
    map.insert(1, 11);
    assert_eq!(map.get(1), Some(&10));
    assert_eq!(map.get(2), Some(&20));
    assert_eq!(map.get(3), None);
    assert_eq!(map.len(), 3);
}

#[test]
fn keys_and_identities() {
    assert_eq!(PUBKEY_BYTES, 1);
    let key = Pubkey::new(&[9]);
    assert_eq!(key.to_bytes(), [9]);
    assert_eq!(key.key(), key);
    assert_eq!(Pubkey::new_from_array([9]), key);
    assert_eq!(Pubkey::default().to_bytes(), [0]);
    assert_ne!(Pubkey::new(&[8]), key);
    assert_eq!(system_program::id().to_bytes(), [0x42]);
    assert!(system_program::check_id(&Pubkey::new(&[0x42])));
    assert!(!system_program::check_id(&Pubkey::new(&[0x41])));
    assert_eq!(incinerator::id().to_bytes(), [b'1']);
    assert!(incinerator::check_id(&incinerator::id()));
    assert!(!incinerator::check_id(&system_program::id()));
    assert_eq!(sysvar::rent::id().to_bytes(), [43]);
    assert_eq!(System::id(), Pubkey::default());
}

#[test]
fn account_as_a_program_sees_it() {
    let key = Pubkey::new(&[1]);
    let owner = Pubkey::new(&[2]);
    let mut account = info(&key, &owner, true, false);
    assert_eq!(account.lamports(), 5);
    assert_eq!(account.try_borrow_lamports().unwrap(), 5);
    assert_eq!(account.data_len(), 32);
    assert_eq!(account.try_borrow_data().unwrap().len(), 32);
    assert_eq!(account.try_borrow_mut_data().unwrap().len(), 32);
    assert!(account.realloc(64, true).is_ok());
    assert_eq!(account.key(), key);
    let meta = account.to_account_meta(true);
    assert_eq!(meta.pubkey, key);
    assert!(meta.is_signer);
    assert!(meta.is_writable);
    {
        let balance = account.try_borrow_mut_lamports().unwrap();
        *balance.x = 8;
    }
    assert_eq!(account.lamports(), 8);
    let readonly = info(&key, &owner, false, true);
    let meta = readonly.to_account_meta(false);
    assert!(!meta.is_signer);
    assert!(!meta.is_writable);
}

#[test]
fn accounts_are_taken_in_order() {
    let first = Pubkey::new(&[1]);
    let second = Pubkey::new(&[2]);
    let mut accounts: FastVec<AccountInfo> = FastVec::new();
    accounts.data[0] = info(&first, &second, true, true);
    accounts.data[1] = info(&second, &first, false, false);
    accounts.size = 2;
    let mut iter = accounts.iter();
    assert_eq!(*next_account_info(&mut iter).unwrap().key, first);
    assert_eq!(*next_account_info(&mut iter).unwrap().key, second);
    assert_eq!(next_account_info(&mut iter).unwrap_err(), Error::InstructionMissing);
}

#[test]
fn cell_lends_its_value() {
    let mut cell = StupidRefCell::new(3u64);
    assert_eq!(*cell.borrow(), 3);
    assert_eq!(*cell.try_borrow().unwrap(), 3);
    {
        let borrowed = cell.borrow_mut();
        *borrowed.x = 4;
    }
    assert_eq!(*cell.borrow(), 4);
    {
        let borrowed = cell.try_borrow_mut().unwrap();
        *borrowed.x += 1;
    }
    assert_eq!(*cell.borrow(), 5);
    assert_eq!(*cell.clone().borrow(), 5);
    assert_eq!(*StupidRefCell::<u64>::default().borrow(), 0);
}

#[test]
fn memory_is_compared_and_filled() {
    assert_eq!(sol_memcmp(b"abc", b"abc", 3), 0);
    assert_eq!(sol_memcmp(b"abc", b"abd", 3), -1);
    assert_eq!(sol_memcmp(b"abd", b"abc", 3), 1);
    assert_eq!(sol_memcmp(b"ab", b"abc", 2), -1);
    assert_eq!(sol_memcmp(b"abc", b"ab", 2), 1);
    assert_eq!(sol_memcmp(b"", b"", 0), 0);
    assert_eq!(sol_memcmp(b"b", b"abc", 1), 1);
    let mut buffer = [1u8, 2, 3, 4];
    sol_memset(&mut buffer, 0, 2);
    assert_eq!(buffer, [0, 0, 3, 4]);
    sol_memset(&mut buffer, 9, 0);
    assert_eq!(buffer, [0, 0, 3, 4]);
    sol_memset(&mut buffer, 9, 4);
    assert_eq!(buffer, [9, 9, 9, 9]);
    let data: SparseVec<u8> = SparseVec::new_with_size(4);
    let slice = data.as_slice();
    sol_memset_acct(&slice, 0, 0);
    assert_eq!(slice.len(), 4);
}

#[derive(Clone, Copy, Debug, PartialEq)]
struct Vault {
    amount: u64,
    open: bool,
}

impl IsInitialized for Vault {
    fn is_initialized(&self) -> bool {
        self.open
    }
}

#[test]
fn unpacking_takes_from_the_pool() {
    let data: SparseSlice<u8> = SparseSlice { len: 9, t: PhantomData };
    let mut pool: Pool<Vault> = Pool::init();
    pool.expect_unpack(Vault { amount: 1, open: true });
    pool.expect_unpack(Vault { amount: 2, open: false });
    pool.expect_unpack(Vault { amount: 3, open: false });
    assert_eq!(unpack(&mut pool, &data), Ok(Vault { amount: 1, open: true }));
    assert_eq!(unpack(&mut pool, &data), Err(ProgramError::UninitializedAccount));
    assert_eq!(unpack_unchecked(&mut pool, &data), Ok(Vault { amount: 3, open: false }));
    assert_eq!(pool.num_used(), 3);
    let mut dst: SparseSlice<u8> = SparseSlice { len: 9, t: PhantomData };
    assert!(pack(Vault { amount: 7, open: true }, &mut pool, &mut dst).is_ok());
    assert_eq!(pool.get_packed(0), Vault { amount: 7, open: true });
    assert_eq!(dst.len(), 9);
}

#[test]
fn errors_have_numbers_and_messages() {
    assert_eq!(Error::InstructionMissing.code(), 100);
    assert_eq!(Error::InstructionDidNotSerialize.code(), 103);
    assert_eq!(Error::IdlInstructionInvalidProgram.code(), 1001);
    assert_eq!(Error::ConstraintSpace.code(), 2019);
    assert_eq!(Error::RequireGteViolated.code(), 2506);
    assert_eq!(Error::AccountDuplicateReallocs.code(), 3017);
    assert_eq!(Error::StateInvalidAddress.code(), 4000);
    assert_eq!(Error::DeclaredProgramIdMismatch.code(), 4100);
    assert_eq!(Error::Deprecated.code(), 5000);
    assert_eq!(Error::StdIo.code(), 9999);
    assert_eq!(Error::ConstraintMut.message(), "A mut constraint was violated");
    assert_eq!(Error::AccountNotSigner.message(), "The given account did not sign");
    assert_eq!(Error::StdIo.message(), "Generic rust error");
}

#[test]
fn accessors_hand_out_what_they_hold() {
    let key = Pubkey::new(&[1]);
    let owner = Pubkey::new(&[2]);
    let mut account = Account::new(info(&key, &owner, true, true), 7u8);
    assert_eq!(account.key(), key);
    account.set_inner(9);
    assert!(account.reload().is_ok());
    let metas = account.to_account_metas(None);
    assert!(metas[0].is_signer && metas[0].is_writable);
    assert!(!account.to_account_metas(Some(false))[0].is_signer);
    assert_eq!(account.to_account_info().key(), key);
    assert_eq!(account.to_account_infos().len(), 1);
    assert_eq!(account.into_inner(), 9);
    let closing = Account::new(info(&key, &owner, true, true), 0u8);
    assert!(closing.close(info(&owner, &key, true, true)).is_ok());
    let read = Account::try_from(&info(&key, &owner, true, true), &owner, Some(4u8)).unwrap();
    assert_eq!(read.into_inner(), 4);
    let other = Account::<u8>::try_from(&info(&key, &owner, true, true), &key, Some(4u8));
    assert_eq!(other.unwrap_err(), Error::AccountDidNotDeserialize);
    let unread = Account::<u8>::try_from(&info(&key, &owner, true, true), &owner, None);
    assert_eq!(unread.unwrap_err(), Error::AccountDidNotDeserialize);
    let mut broke = info(&key, &owner, true, true);
    *broke.try_borrow_mut_lamports().unwrap().x = 0;
    let poor = Account::<u8>::try_from(&broke, &owner, Some(4u8));
    assert_eq!(poor.unwrap_err(), Error::AccountDidNotDeserialize);
    assert!(FastVec::<u8>::default().is_empty());
    assert!(SparseVec::<u8>::default().is_empty());
    let default = AccountInfo::default();
    assert_eq!(default.key(), Pubkey::default());
    assert_eq!(default.lamports(), 0);
    assert_eq!(default.data_len(), 0);
    let program: Program<System> = Program::new(info(&key, &owner, false, false));
    assert_eq!(program.programdata_address(), Ok(Some(key)));
    let signer = Signer { info: info(&key, &owner, false, true), key: &key };
    assert_eq!(signer.key(), key);
    assert_eq!(FakeBumps.get("vault"), Some(&0));
    assert_eq!(*FakeRef::new(3).get(), 3);
    let mut fake = MutFakeRef::new(3);
    fake.set(4);
    assert_eq!(*fake.get(), 4);
    let _ = FakeArrRef::new(FastVec::<u8>::new());
    let _ = (Mint, TokenAccount, TokenInterface);
    assert_eq!(string::String::default().vec_len(), 0);
    assert_eq!(string::String::new().vec_len(), 0);
}

#[test]
fn resource_sets_name_their_accounts() {
    let a = Pubkey::new(&[1]);
    let b = Pubkey::new(&[2]);
    let transfer = Transfer { from: info(&a, &b, true, true), to: info(&b, &a, false, true) };
    let metas = transfer.to_account_metas(None);
    assert_eq!(metas.len(), 2);
    assert_eq!((metas[0].pubkey, metas[0].is_signer, metas[0].is_writable), (a, true, true));
    assert_eq!((metas[1].pubkey, metas[1].is_signer, metas[1].is_writable), (b, false, false));
    let metas = transfer.to_account_metas(Some(false));
    assert!(!metas[0].is_signer);
    let infos = transfer.to_account_infos();
    assert_eq!((infos[0].key(), infos[1].key()), (a, b));
    assert_eq!(infos[0].lamports(), 5);
    let one = Allocate { account_to_allocate: info(&a, &b, false, false) };
    assert_eq!(one.to_account_metas(Some(true)).len(), 1);
    let ctx = CpiContext::new(info(&b, &b, false, false), one);
    assert!(ctx.remaining_accounts.is_empty());
    assert!(ctx.signer_seeds.is_empty());
    let seeds: &[&[&[u8]]] = &[&[b"vault"]];
    let mut remaining: FastVec<AccountInfo> = FastVec::new();
    remaining.push(info(&a, &a, true, true));
    let ctx = ctx.with_signer(seeds).with_remaining_accounts(remaining);
    assert_eq!(ctx.signer_seeds.len(), 1);
    assert_eq!(ctx.remaining_accounts.len(), 1);
    assert!(allocate(ctx, 64).is_ok());
    let ctx = CpiContext::new_with_signer(info(&b, &b, false, false), transfer, seeds);
    assert_eq!(ctx.signer_seeds.len(), 1);
    assert!(otter_solana::anchor::system_program::transfer(ctx, 1).is_ok());
    let fresh = CreateAccount { from: info(&a, &b, true, true), to: info(&b, &a, true, false) };
    assert_eq!(fresh.to_account_metas(None).len(), 2);
    assert_eq!(fresh.to_account_infos().len(), 2);
    assert!(create_account(CpiContext::new(info(&a, &a, false, false), fresh), 1, 8, &a).is_ok());
    let given = Assign { account_to_assign: info(&a, &b, true, true) };
    assert!(given.to_account_metas(None)[0].is_signer);
    assert_eq!(given.to_account_infos().len(), 1);
    assert!(assign(CpiContext::new(info(&a, &a, false, false), given), &b).is_ok());
    let checked = TransferChecked {
        from: info(&a, &b, true, false),
        to: info(&b, &a, true, true),
        mint: info(&a, &a, false, true),
        authority: info(&b, &b, false, true),
    };
    let metas = checked.to_account_metas(None);
    let signers: Vec<bool> = metas.iter().map(|m| m.is_signer).collect();
    assert_eq!(signers, vec![false, false, false, false]);
    let writable: Vec<bool> = metas.iter().map(|m| m.is_writable).collect();
    assert_eq!(writable, vec![true, true, false, false]);
    assert_eq!(checked.to_account_infos().len(), 4);
    assert!(transfer_checked(CpiContext::new(info(&a, &a, false, false), checked), 1, 6).is_ok());
    let interface: Interface<TokenInterface> = Interface::new(info(&a, &b, false, false));
    assert_eq!(interface.programdata_address(), Ok(Some(a)));
    assert_eq!(interface.to_account_info().key(), a);
    let mut held = InterfaceAccount::new(info(&a, &b, true, false), Mint);
    assert_eq!(held.owner, b);
    assert_eq!(held.key(), a);
    assert!(held.reload().is_ok());
    held.set_inner(Mint);
    assert_eq!(held.to_account_metas(Some(true)).len(), 1);
    assert_eq!(held.to_account_infos().len(), 1);
    assert_eq!(held.into_inner(), Mint);
    let default: Program<System> = Program::default();
    assert_eq!(default.to_account_info().lamports(), 0);
}

#[test]
fn context_lends_its_resource_set() {
    let key = Pubkey::new(&[1]);
    let mut concrete = ConcreteContext::new(key, 5u32, FastVec::new());
    {
        let ctx = concrete.to_ctx();
        assert_eq!(*ctx.program_id, key);
        assert!(ctx.remaining_accounts.is_empty());
        *ctx.accounts += 1;
    }
    assert_eq!(concrete.accounts, 6);
}
