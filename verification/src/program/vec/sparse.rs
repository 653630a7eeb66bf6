//! A vector that knows its length and nothing else.  It stands for data whose
//! contents a harness does not reason about, such as the bytes of an account:
//! those are reasoned about where they are packed and unpacked.

use vstd::prelude::*;
use std::marker::PhantomData;

verus! {

/// A vector of which only the length is kept.
#[derive(Debug)]
pub struct Vec<T> {
    pub size: usize,
    pub t: PhantomData<T>,
}

/// A slice of a sparse vector: a length without data.
pub struct SparseSlice<T> {
    pub len: usize,
    pub t: PhantomData<T>,
}

impl<T> Vec<T> {
    /// A vector of length zero.
    pub fn new() -> (v: Vec<T>) where T: Default
        ensures
            v.size == 0,
    {
        Vec { size: 0, t: PhantomData }
    }

    /// A vector of length `size`.
    pub fn new_with_size(size: usize) -> (v: Vec<T>)
        ensures
            v.size == size,
    {
        Vec { size, t: PhantomData }
    }

    /// The length.
    pub fn len(&self) -> (n: usize)
        ensures
            n == self.size,
    {
        self.size
    }

    /// Whether the length is zero.
    pub fn is_empty(&self) -> (b: bool)
        ensures
            b == (self.size == 0),
    {
        self.size == 0
    }

    /// Leaves the vector as it is.
    pub fn sort(&mut self)
        ensures
            final(self).size == old(self).size,
    {
    }

    /// Leaves the vector as it is.
    pub fn dedup(&mut self)
        ensures
            final(self).size == old(self).size,
    {
    }

    /// The whole vector as a slice.
    pub fn as_slice(&self) -> (s: SparseSlice<T>)
        ensures
            s.len == self.size,
    {
        SparseSlice::<T> { len: self.size, t: PhantomData }
    }

    /// The whole vector as a slice.
    pub fn borrow(&self) -> (s: SparseSlice<T>)
        ensures
            s.len == self.size,
    {
        self.as_slice()
    }

    /// The whole vector as a slice, in a box.  Nothing can be written through
    /// it, because there is no data.
    pub fn borrow_mut(&self) -> (s: Box<SparseSlice<T>>)
        ensures
            s.len == self.size,
    {
        Box::new(self.as_slice())
    }
}

impl<T: Default> Default for Vec<T> {
    /// A vector of length zero.
    fn default() -> (v: Self)
        ensures
            v.size == 0,
    {
        Vec { size: 0, t: PhantomData }
    }
}

impl<T> Clone for Vec<T> {
    /// A vector of the same length.
    fn clone(&self) -> (v: Self)
        ensures
            v.size == self.size,
    {
        Vec { size: self.size, t: PhantomData }
    }
}

impl<T> SparseSlice<T> {
    /// Whether the length is zero.
    pub fn is_empty(&self) -> (b: bool)
        ensures
            b == (self.len == 0),
    {
        self.len == 0
    }

    /// The length.
    pub fn len(&self) -> (n: usize)
        ensures
            n == self.len,
    {
        self.len
    }
}

} // verus!
