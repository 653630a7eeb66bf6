//! Owned values that stand where a program expects a borrow.

use vstd::prelude::*;
use std::marker::PhantomData;
use crate::program::vec::fast::Vec;

verus! {

/// An owned value that stands for a shared borrow.
pub struct FakeRef<'a, T> {
    _t: T,
    _phantom: PhantomData<&'a T>,
}

/// An owned value that stands for an exclusive borrow.
pub struct MutFakeRef<'a, T> {
    _t: T,
    _phantom: PhantomData<&'a T>,
}

/// An owned vector that stands for a borrowed slice.
pub struct FakeArrRef<'a, T> {
    _t: Vec<T>,
    _phantom: PhantomData<&'a T>,
}

impl<'a, T> FakeRef<'a, T> {
    /// The value behind the borrow.
    pub closed spec fn value(&self) -> T {
        self._t
    }

    /// A borrow of `t`.
    pub fn new(t: T) -> (r: Self)
        ensures
            r.value() == t,
    {
        Self { _t: t, _phantom: PhantomData }
    }

    /// The value behind the borrow.
    pub fn get(&self) -> (t: &T)
        ensures
            *t == self.value(),
    {
        &self._t
    }
}

impl<'a, T> MutFakeRef<'a, T> {
    /// The value behind the borrow.
    pub closed spec fn value(&self) -> T {
        self._t
    }

    /// A borrow of `t`.
    pub fn new(t: T) -> (r: Self)
        ensures
            r.value() == t,
    {
        Self { _t: t, _phantom: PhantomData }
    }

    /// The value behind the borrow.
    pub fn get(&self) -> (t: &T)
        ensures
            *t == self.value(),
    {
        &self._t
    }

    /// Puts `t` behind the borrow.
    pub fn set(&mut self, t: T)
        ensures
            final(self).value() == t,
    {
        self._t = t;
    }
}

impl<'a, T> FakeArrRef<'a, T> {
    /// The elements behind the borrow.
    pub closed spec fn value(&self) -> Seq<T> {
        self._t@
    }

    /// A borrow of the elements of `t`.
    pub fn new(t: Vec<T>) -> (r: Self)
        ensures
            r.value() == t@,
    {
        Self { _t: t, _phantom: PhantomData }
    }
}

} // verus!
