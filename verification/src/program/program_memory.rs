//! Comparing and filling memory.

use vstd::prelude::*;
use crate::program::vec::sparse::SparseSlice;

verus! {

/// The order of `a` and `b` as texts are ordered: by the first position in
/// which they differ, or by length if one begins with the other.  The result
/// is `-1`, `0` or `1`.
pub open spec fn lex_order(a: Seq<u8>, b: Seq<u8>) -> int
    decreases a.len(),
{
    if a.len() == 0 {
        if b.len() == 0 {
            0
        } else {
            -1
        }
    } else if b.len() == 0 {
        1
    } else if a[0] < b[0] {
        -1
    } else if a[0] > b[0] {
        1
    } else {
        lex_order(a.drop_first(), b.drop_first())
    }
}

/// Compares `a` and `b`: `0` when they are equal, `-1` when `a` comes first,
/// `1` when `b` does.  The size is not looked at.
pub fn sol_memcmp(a: &[u8], b: &[u8], _size: usize) -> (r: i32)
    ensures
        r == lex_order(a@, b@),
        r == 0 <==> a@ == b@,
{
    order_of(a, b)
}

/// The order of `a` and `b`.
fn order_of(a: &[u8], b: &[u8]) -> (r: i32)
    ensures
        r == lex_order(a@, b@),
        r == 0 <==> a@ == b@,
{
    let mut i: usize = 0;
    assert(a@.skip(0) =~= a@);
    assert(b@.skip(0) =~= b@);
    while i < a.len() && i < b.len()
        invariant
            i <= a@.len(),
            i <= b@.len(),
            lex_order(a@, b@) == lex_order(a@.skip(i as int), b@.skip(i as int)),
            a@.take(i as int) == b@.take(i as int),
        decreases a@.len() - i,
    {
        assert(a@.skip(i as int)[0] == a@[i as int]);
        assert(b@.skip(i as int)[0] == b@[i as int]);
        assert(a@.skip(i as int).drop_first() =~= a@.skip(i + 1));
        assert(b@.skip(i as int).drop_first() =~= b@.skip(i + 1));
        if a[i] < b[i] {
            assert(a@[i as int] != b@[i as int]);
            return -1;
        }
        if a[i] > b[i] {
            assert(a@[i as int] != b@[i as int]);
            return 1;
        }
        assert(a@.take(i + 1) =~= a@.take(i as int).push(a@[i as int]));
        assert(b@.take(i + 1) =~= b@.take(i as int).push(b@[i as int]));
        i = i + 1;
    }
    if i < b.len() {
        assert(a@.skip(i as int).len() == 0);
        assert(a@.len() != b@.len());
        -1
    } else if i < a.len() {
        assert(b@.skip(i as int).len() == 0);
        assert(a@.len() != b@.len());
        1
    } else {
        assert(a@.skip(i as int).len() == 0);
        assert(b@.skip(i as int).len() == 0);
        assert(a@.take(i as int) =~= a@);
        assert(b@.take(i as int) =~= b@);
        0
    }
}

/// A buffer that may be the data of an account.
pub trait MaybeAccountBuf {
    /// The length of the buffer.
    fn mb_size(&self) -> usize;

    /// Whether the buffer is the data of an account.
    fn mb_is_acct(&self) -> bool;
}

impl<T> MaybeAccountBuf for SparseSlice<T> {
    /// The length of the account's data.
    fn mb_size(&self) -> (n: usize)
        ensures
            n == self.len,
    {
        self.len()
    }

    /// The data of an account.
    fn mb_is_acct(&self) -> (b: bool)
        ensures
            b,
    {
        true
    }
}

/// Fills the first `size` bytes of the data of an account with `c`.  The
/// data of an account holds no bytes that could be written, and it may only
/// be filled with zero: so `c` is zero, `size` is zero, and nothing changes.
pub fn sol_memset_acct<T>(dst: &SparseSlice<T>, c: u8, size: usize)
    requires
        c == 0,
        size == 0,
{
}

/// Fills the first `size` bytes of `dst` with `c` and leaves the rest as it is.
pub fn sol_memset(dst: &mut [u8], c: u8, size: usize)
    requires
        size <= old(dst)@.len(),
    ensures
        final(dst)@.len() == old(dst)@.len(),
        forall|i: int| 0 <= i < size ==> final(dst)@[i] == c,
        forall|i: int| size <= i < old(dst)@.len() ==> final(dst)@[i] == old(dst)@[i],
{
    let mut i: usize = 0;
    while i < size
        invariant
            i <= size <= dst@.len(),
            dst@.len() == old(dst)@.len(),
            forall|j: int| 0 <= j < i ==> dst@[j] == c,
            forall|j: int| i <= j < dst@.len() ==> dst@[j] == old(dst)@[j],
        decreases size - i,
    {
        dst[i] = c;
        i = i + 1;
    }
}

} // verus!
