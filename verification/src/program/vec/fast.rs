//! A vector with a fixed capacity, stored inline, so that a bounded checker
//! can hold it whole.

use vstd::prelude::*;
use vstd::std_specs::cmp::PartialEqSpec;
use crate::program::error::Error;

verus! {

/// The number of elements a vector can hold.
pub const VEC_SIZE: usize = 10;

/// A vector of at most `VEC_SIZE` elements: the first `size` slots of `data`.
#[derive(Clone, Copy, Debug)]
pub struct Vec<T> {
    pub data: [T; VEC_SIZE],
    pub size: usize,
}

/// A cursor over the elements of a vector, by reference.
#[derive(Debug)]
pub struct VecIterator<'a, T> {
    vec: &'a Vec<T>,
    idx: usize,
}

/// A cursor over the elements of a vector that it owns.
pub struct VecIntoIterator<T> {
    vec: Vec<T>,
    idx: usize,
}

impl<T> View for Vec<T> {
    type V = Seq<T>;

    /// The elements held, in order.
    open spec fn view(&self) -> Seq<T> {
        self.data@.take(self.size as int)
    }
}

impl<T> Vec<T> {
    /// The size does not exceed the capacity.
    pub open spec fn wf(&self) -> bool {
        self.size <= VEC_SIZE
    }

    /// An empty vector.
    pub fn new() -> (v: Vec<T>) where T: Default
        ensures
            v.wf(),
            v.size == 0,
            v@ == Seq::<T>::empty(),
    {
        let v = Vec {
            data: [
                T::default(),
                T::default(),
                T::default(),
                T::default(),
                T::default(),
                T::default(),
                T::default(),
                T::default(),
                T::default(),
                T::default(),
            ],
            size: 0,
        };
        assert(v@ =~= Seq::<T>::empty());
        v
    }

    /// An empty vector; the capacity is fixed, whatever is asked for.
    pub fn with_capacity(_s: usize) -> (v: Vec<T>) where T: Default + Copy
        ensures
            v.wf(),
            v.size == 0,
            v@ == Seq::<T>::empty(),
    {
        Vec::new()
    }

    /// Appends `t`.
    pub fn push(&mut self, t: T)
        requires
            old(self).size < VEC_SIZE,
        ensures
            final(self).wf(),
            final(self).size == old(self).size + 1,
            final(self).data@ == old(self).data@.update(old(self).size as int, t),
            final(self)@ == old(self)@.push(t),
    {
        self.data[self.size] = t;
        self.size = self.size + 1;
        assert(self@ =~= old(self)@.push(t));
    }

    /// Puts `t` at position `pos` and moves the elements from there on one
    /// position up.
    pub fn insert(&mut self, pos: usize, t: T)
        requires
            pos < old(self).size,
            old(self).size < VEC_SIZE,
        ensures
            final(self).wf(),
            final(self).size == old(self).size + 1,
            final(self)@ == old(self)@.insert(pos as int, t),
            forall|j: int|
                old(self).size < j < VEC_SIZE ==> final(self).data@[j] == old(self).data@[j],
    {
        let mut v = t;
        let mut i: usize = pos;
        let ghost before = self@;
        while i < self.size + 1
            invariant
                pos <= i <= self.size + 1,
                self.size == old(self).size,
                self.size < VEC_SIZE,
                before == old(self)@,
                forall|j: int| 0 <= j < pos ==> self.data@[j] == before[j],
                forall|j: int| pos < j < i ==> self.data@[j] == before[j - 1],
                i > pos ==> self.data@[pos as int] == t,
                forall|j: int| i <= j < self.size ==> self.data@[j] == before[j],
                forall|j: int| self.size < j < VEC_SIZE ==> self.data@[j] == old(self).data@[j],
                i <= self.size ==> v == if i == pos {
                    t
                } else {
                    before[i - 1]
                },
            decreases self.size + 1 - i,
        {
            core::mem::swap(&mut self.data[i], &mut v);
            i = i + 1;
        }
        self.size = self.size + 1;
        assert(self@ =~= before.insert(pos as int, t));
    }

    /// The number of elements held.
    pub fn len(&self) -> (n: usize)
        ensures
            n == self.size,
            self.wf() ==> n == self@.len(),
    {
        self.size
    }

    /// Whether no element is held.
    pub fn is_empty(&self) -> (b: bool)
        ensures
            b == (self.size == 0),
            self.wf() ==> b == (self@.len() == 0),
    {
        self.size == 0
    }

    /// A cursor at the first element.
    pub fn iter(&self) -> (it: VecIterator<'_, T>)
        ensures
            it.remaining() == self@,
            self.wf() ==> it.wf(),
    {
        let it = VecIterator { vec: self, idx: 0 };
        assert(it.remaining() =~= self@);
        it
    }

    /// Whether an element equals `t`.
    pub fn contains(&self, t: &T) -> (b: bool) where T: PartialEq
        requires
            self.wf(),
        ensures
            T::obeys_eq_spec() ==> b == exists|i: int|
                0 <= i < self@.len() && (#[trigger] self@[i]).eq_spec(t),
    {
        let mut i: usize = 0;
        while i < self.size
            invariant
                i <= self.size <= VEC_SIZE,
                T::obeys_eq_spec() ==> forall|j: int|
                    0 <= j < i ==> !(#[trigger] self@[j]).eq_spec(t),
            decreases self.size - i,
        {
            if &self.data[i] == t {
                assert(self@[i as int] == self.data@[i as int]);
                return true;
            }
            assert(self@[i as int] == self.data@[i as int]);
            i = i + 1;
        }
        false
    }

    /// Leaves the vector as it is.
    pub fn sort(&mut self)
        ensures
            *final(self) == *old(self),
    {
    }

    /// Leaves the vector as it is.
    pub fn dedup(&mut self)
        ensures
            *final(self) == *old(self),
    {
    }

    /// Takes out the element at `idx` and moves the elements behind it one
    /// position down.
    pub fn remove(&mut self, idx: usize) where T: Copy
        requires
            old(self).wf(),
            idx < old(self).size,
        ensures
            final(self).wf(),
            final(self).size == old(self).size - 1,
            final(self)@ == old(self)@.remove(idx as int),
            forall|j: int|
                old(self).size - 1 <= j < VEC_SIZE ==> final(self).data@[j] == old(self).data@[j],
    {
        let mut i: usize = idx;
        let ghost before = self@;
        while i < self.size - 1
            invariant
                idx <= i <= self.size - 1,
                self.size == old(self).size,
                self.size <= VEC_SIZE,
                before == old(self)@,
                forall|j: int| 0 <= j < idx ==> self.data@[j] == before[j],
                forall|j: int| idx <= j < i ==> self.data@[j] == before[j + 1],
                forall|j: int| i <= j < self.size ==> self.data@[j] == before[j],
                forall|j: int| self.size <= j < VEC_SIZE ==> self.data@[j] == old(self).data@[j],
            decreases self.size - i,
        {
            self.data[i] = self.data[i + 1];
            i = i + 1;
        }
        assert(self.data@[self.size - 1] == before[self.size - 1]);
        assert(before[self.size - 1] == old(self).data@[self.size - 1]);
        self.size = self.size - 1;
        assert(self@ =~= before.remove(idx as int));
    }

    /// The position of the first element that equals `t`, or, as an error,
    /// the number of elements if there is none.
    pub fn binary_search(&self, t: &T) -> (r: Result<usize, usize>) where T: PartialEq
        requires
            self.wf(),
        ensures
            T::obeys_eq_spec() ==> match r {
                Ok(i) => i < self@.len() && self@[i as int].eq_spec(t) && forall|j: int|
                    0 <= j < i ==> !(#[trigger] self@[j]).eq_spec(t),
                Err(n) => n == self@.len() && forall|j: int|
                    0 <= j < self@.len() ==> !(#[trigger] self@[j]).eq_spec(t),
            },
    {
        let mut i: usize = 0;
        while i < self.size
            invariant
                i <= self.size <= VEC_SIZE,
                T::obeys_eq_spec() ==> forall|j: int|
                    0 <= j < i ==> !(#[trigger] self@[j]).eq_spec(t),
            decreases self.size - i,
        {
            assert(self@[i as int] == self.data@[i as int]);
            if &self.data[i] == t {
                return Ok(i);
            }
            i = i + 1;
        }
        Err(self.size)
    }

    /// The elements held, as a slice.
    pub fn as_slice(&self) -> (s: &[T])
        requires
            self.wf(),
        ensures
            s@ == self@,
    {
        let s = vstd::slice::slice_subrange(self.data.as_slice(), 0, self.size);
        assert(s@ =~= self@);
        s
    }

    /// Appends every element of `slice`, in order.
    pub fn extend_from_slice(&mut self, slice: &[T]) where T: Copy
        requires
            old(self).size + slice@.len() <= VEC_SIZE,
        ensures
            final(self).wf(),
            final(self).size == old(self).size + slice@.len(),
            final(self)@ == old(self)@ + slice@,
            forall|j: int|
                old(self).size + slice@.len() <= j < VEC_SIZE ==> final(self).data@[j] == old(
                    self,
                ).data@[j],
    {
        let mut i: usize = 0;
        assert(self@ =~= old(self)@ + slice@.take(0));
        while i < slice.len()
            invariant
                i <= slice@.len(),
                self.size == old(self).size + i,
                old(self).size + slice@.len() <= VEC_SIZE,
                self@ == old(self)@ + slice@.take(i as int),
                forall|j: int| self.size <= j < VEC_SIZE ==> self.data@[j] == old(self).data@[j],
            decreases slice@.len() - i,
        {
            let ghost before = self@;
            self.push(slice[i]);
            assert(self@ =~= old(self)@ + slice@.take(i + 1));
            i = i + 1;
        }
        assert(slice@.take(slice@.len() as int) =~= slice@);
    }
}

impl<T: Default> Vec<T> {
    /// The vector that holds the elements of `value`, in order.  They are no
    /// more than a vector can hold.
    pub fn from_vec(value: std::vec::Vec<T>) -> (res: Vec<T>)
        requires
            value@.len() <= VEC_SIZE,
        ensures
            res.wf(),
            res@ == value@,
    {
        let mut res = Vec::new();
        let ghost all = value@;
        assert(res@ =~= all.take(0));
        for v in it: value
            invariant
                it.seq() == all,
                all.len() <= VEC_SIZE,
                res.size == it.index(),
                res@ == all.take(it.index() as int),
        {
            res.push(v);
            assert(res@ =~= all.take(it.index() + 1));
        }
        assert(all.take(all.len() as int) =~= all);
        res
    }
}

impl<T: Default> Default for Vec<T> {
    /// An empty vector.
    fn default() -> (v: Self)
        ensures
            v.wf(),
            v.size == 0,
            v@ == Seq::<T>::empty(),
    {
        Vec::new()
    }
}

impl<'a, T> VecIterator<'a, T> {
    /// The cursor is within the vector.
    pub closed spec fn wf(&self) -> bool {
        self.vec.wf() && self.idx <= self.vec.size
    }

    /// The elements that are still to come.
    pub closed spec fn remaining(&self) -> Seq<T> {
        self.vec@.skip(self.idx as int)
    }

    /// The next element, if one is left.
    pub fn next(&mut self) -> (r: Option<&'a T>)
        requires
            old(self).wf(),
        ensures
            final(self).wf(),
            match r {
                Some(t) => old(self).remaining().len() > 0 && *t == old(self).remaining()[0]
                    && final(self).remaining() == old(self).remaining().drop_first(),
                None => old(self).remaining().len() == 0
                    && final(self).remaining() == old(self).remaining(),
            },
    {
        if self.idx >= self.vec.size {
            return None;
        }
        let res = &self.vec.data[self.idx];
        self.idx = self.idx + 1;
        assert(self.remaining() =~= old(self).remaining().drop_first());
        Some(res)
    }
}

impl<T: Clone> VecIntoIterator<T> {
    /// The cursor is within the vector.
    pub closed spec fn wf(&self) -> bool {
        self.vec.wf() && self.idx <= self.vec.size
    }

    /// How many elements are still to come.
    pub closed spec fn remaining(&self) -> nat {
        (self.vec.size - self.idx) as nat
    }

    /// The element that comes next.
    pub closed spec fn front(&self) -> T {
        self.vec.data@[self.idx as int]
    }

    /// A cursor at the first element of `vec`.
    pub fn new(vec: Vec<T>) -> (it: Self)
        requires
            vec.wf(),
        ensures
            it.wf(),
            it.remaining() == vec@.len(),
            vec@.len() > 0 ==> it.front() == vec@[0],
    {
        VecIntoIterator { vec, idx: 0 }
    }

    /// A copy of the next element, if one is left.
    pub fn next(&mut self) -> (r: Option<T>)
        requires
            old(self).wf(),
        ensures
            final(self).wf(),
            r is Some <==> old(self).remaining() > 0,
            r matches Some(x) ==> cloned(old(self).front(), x),
            r is Some ==> final(self).remaining() == old(self).remaining() - 1,
            r is None ==> final(self).remaining() == old(self).remaining(),
    {
        if self.idx >= self.vec.size {
            return None;
        }
        let res = self.vec.data[self.idx].clone();
        self.idx = self.idx + 1;
        Some(res)
    }
}

/// The value of the hexadecimal digit `c`, if it is one.
pub open spec fn hex_val(c: u8) -> Option<u8> {
    if 'A' as u8 <= c <= 'F' as u8 {
        Some((c - 'A' as u8 + 10) as u8)
    } else if 'a' as u8 <= c <= 'f' as u8 {
        Some((c - 'a' as u8 + 10) as u8)
    } else if '0' as u8 <= c <= '9' as u8 {
        Some((c - '0' as u8) as u8)
    } else {
        None
    }
}

/// Whether the first `n` pairs of `hex` are pairs of hexadecimal digits.
pub open spec fn pairs_valid(hex: Seq<u8>, n: int) -> bool {
    forall|k: int| 0 <= k < 2 * n ==> hex_val(#[trigger] hex[k]) is Some
}

/// The byte that the `k`-th pair of `hex` writes.
pub open spec fn pair_byte(hex: Seq<u8>, k: int) -> u8 {
    (hex_val(hex[2 * k])->0 * 16 + hex_val(hex[2 * k + 1])->0) as u8
}

/// The value of the hexadecimal digit `c`.
pub fn val(c: u8) -> (r: Result<u8, Error>)
    ensures
        match r {
            Ok(v) => hex_val(c) == Some(v) && v < 16,
            Err(e) => hex_val(c) is None && e == Error::Generic,
        },
{
    if 65 <= c && c <= 70 {
        Ok(c - 65 + 10)
    } else if 97 <= c && c <= 102 {
        Ok(c - 97 + 10)
    } else if 48 <= c && c <= 57 {
        Ok(c - 48)
    } else {
        Err(Error::Generic)
    }
}

/// Decodes a text of hexadecimal digits, two for each byte.  The text is
/// rejected when its length is odd or when it holds anything but digits.  Of
/// an acceptable text, no more than `VEC_SIZE` leading pairs are digits.
pub fn from_hex(hex: &[u8]) -> (r: Result<Vec<u8>, Error>)
    requires
        hex@.len() % 2 == 0 ==> !pairs_valid(hex@, VEC_SIZE + 1) || hex@.len() <= 2 * VEC_SIZE,
    ensures
        r is Ok <==> hex@.len() % 2 == 0 && pairs_valid(hex@, hex@.len() as int / 2),
        match r {
            Ok(v) => v.wf() && v@.len() == hex@.len() / 2 && forall|k: int|
                0 <= k < v@.len() ==> #[trigger] v@[k] == pair_byte(hex@, k),
            Err(e) => e == Error::Generic,
        },
{
    if hex.len() % 2 != 0 {
        return Err(Error::Generic);
    }
    let mut v: Vec<u8> = Vec::new();
    let n = hex.len() / 2;
    let mut k: usize = 0;
    while k < n
        invariant
            k <= n,
            n == hex@.len() / 2,
            hex@.len() % 2 == 0,
            !pairs_valid(hex@, VEC_SIZE + 1) || hex@.len() <= 2 * VEC_SIZE,
            v.wf(),
            v.size == k,
            k <= VEC_SIZE,
            pairs_valid(hex@, k as int),
            forall|j: int| 0 <= j < k ==> #[trigger] v@[j] == pair_byte(hex@, j),
        decreases n - k,
    {
        let hi = match val(hex[2 * k]) {
            Ok(x) => x,
            Err(e) => {
                return Err(e);
            },
        };
        let lo = match val(hex[2 * k + 1]) {
            Ok(x) => x,
            Err(e) => {
                return Err(e);
            },
        };
        assert(pairs_valid(hex@, k + 1)) by {
            assert forall|j: int| 0 <= j < 2 * (k + 1) implies hex_val(#[trigger] hex@[j]) is Some by {
                if j < 2 * k {
                } else if j == 2 * k {
                } else {
                }
            }
        }
        assert(k < VEC_SIZE) by {
            if k >= VEC_SIZE {
                assert(pairs_valid(hex@, VEC_SIZE + 1));
            }
        }
        let ghost before = v@;
        v.push(hi * 16 + lo);
        assert(forall|j: int| 0 <= j < k ==> v@[j] == before[j]);
        k = k + 1;
    }
    Ok(v)
}

} // verus!
