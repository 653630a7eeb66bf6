//! Packing and unpacking the state of an account.  A handler under check
//! does not read the state from bytes: it takes the next resource from the
//! pool, and packing writes the resource back to the pool.

use vstd::prelude::*;
use crate::pool::Pool;
use crate::program::program_error::ProgramError;
use crate::program::vec::sparse::SparseSlice;

verus! {

/// A state that knows whether it was initialized.
pub trait IsInitialized {
    /// Whether the state was initialized.
    fn is_initialized(&self) -> bool;
}

/// A state of known size.
pub trait Sealed: Sized {

}

/// A resource type with a pool of its own that is kept apart from the
/// values, so that its operations take no pool.
pub trait Verify: Sized {
    /// Takes the next resource.
    fn get_next() -> Self;

    /// Supplies a resource.
    fn expect_unpack(x: Self);

    /// Writes a resource back.
    fn repack(x: Self);

    /// The resource written back at position `i`.
    fn get_packed(i: usize) -> Self;

    /// How many resources were taken.
    fn num_used() -> usize;
}

/// A state that can be packed into bytes.
pub trait Pack: Sealed {
    /// The length, in bytes, of the packed state.
    const LEN: usize;

    /// Writes the state into `dst`.
    fn pack_into_slice(&self, dst: &mut [u8]);

    /// Reads a state from `src`.
    fn unpack_from_slice(src: &[u8]) -> Result<Self, ProgramError>;

    /// The length, in bytes, of the packed state: the declared length.
    fn get_packed_len() -> (len: usize)
        ensures
            len == Self::LEN,
    {
        Self::LEN
    }
}

/// Unpacks a state without asking whether it was initialized: the state is
/// the next resource of the pool.
pub fn unpack_unchecked<T: Copy>(pool: &mut Pool<T>, _input: &SparseSlice<u8>) -> (r: Result<
    T,
    ProgramError,
>)
    requires
        old(pool)@.wf(),
        old(pool)@.can_take(),
    ensures
        r == Ok::<T, ProgramError>(old(pool)@.front()),
        final(pool)@ == old(pool)@.take(),
        final(pool)@.wf(),
{
    Ok(pool.get_next())
}

/// What unpacking gives for the state `value`, of which `is_initialized`
/// said `initialized`.
pub open spec fn unpacked<T>(value: T, initialized: bool) -> Result<T, ProgramError> {
    if initialized {
        Ok(value)
    } else {
        Err(ProgramError::UninitializedAccount)
    }
}

/// Unpacks a state and rejects it if it says that it was not initialized.
/// The state is the next resource of the pool, which is taken either way.
pub fn unpack<T: Copy + IsInitialized>(pool: &mut Pool<T>, input: &SparseSlice<u8>) -> (r: Result<
    T,
    ProgramError,
>)
    requires
        old(pool)@.wf(),
        old(pool)@.can_take(),
    ensures
        exists|initialized: bool| #[trigger]
            call_ensures(T::is_initialized, (&old(pool)@.front(),), initialized) && r == unpacked(
                old(pool)@.front(),
                initialized,
            ),
        final(pool)@ == old(pool)@.take(),
        final(pool)@.wf(),
{
    let value = match unpack_unchecked(pool, input) {
        Ok(value) => value,
        Err(e) => {
            return Err(e);
        },
    };
    if value.is_initialized() {
        Ok(value)
    } else {
        Err(ProgramError::UninitializedAccount)
    }
}

/// Packs a state: writes it back to the pool.
pub fn pack<T: Copy>(src: T, pool: &mut Pool<T>, _dst: &mut SparseSlice<u8>) -> (r: Result<
    (),
    ProgramError,
>)
    requires
        old(pool)@.wf(),
        old(pool)@.can_repack(),
    ensures
        r is Ok,
        final(pool)@ == old(pool)@.repack(src),
        final(pool)@.wf(),
        final(_dst).len == old(_dst).len,
{
    pool.repack(src);
    Ok(())
}

} // verus!
