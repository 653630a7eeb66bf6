//! A cell without the bookkeeping of a shared cell: a borrow needs the cell
//! and always succeeds.

use vstd::prelude::*;
use std::cell::{BorrowError, BorrowMutError};

verus! {

/// The error of a failed shared borrow of a standard cell.  This cell never
/// makes one.
#[verifier::external_type_specification]
#[verifier::external_body]
pub struct ExBorrowError(BorrowError);

/// The error of a failed exclusive borrow of a standard cell.  This cell
/// never makes one.
#[verifier::external_type_specification]
#[verifier::external_body]
pub struct ExBorrowMutError(BorrowMutError);

/// A cell that holds one value.
#[derive(Debug)]
pub struct StupidRefCell<T> {
    x: T,
}

/// An exclusive borrow of the value of a cell.
pub struct StupidRefMut<'a, T> {
    pub x: &'a mut T,
}

impl<T> View for StupidRefCell<T> {
    type V = T;

    /// The value held.
    closed spec fn view(&self) -> T {
        self.x
    }
}

impl<T> StupidRefCell<T> {
    /// A cell that holds `x`.
    pub fn new(x: T) -> (cell: Self)
        ensures
            cell@ == x,
    {
        Self { x }
    }
}

impl<T> StupidRefCell<T> where T: Copy + Clone {
    /// The value held.
    pub fn borrow(&self) -> (r: &T)
        ensures
            *r == self@,
    {
        &self.x
    }

    /// The value held; the borrow never fails.
    pub fn try_borrow(&self) -> (r: Result<&T, BorrowError>)
        ensures
            r matches Ok(x) && *x == self@,
    {
        Ok(self.borrow())
    }

    /// An exclusive borrow of the value held.
    pub fn borrow_mut(&mut self) -> (r: StupidRefMut<'_, T>)
        ensures
            *r.x == old(self)@,
            final(self)@ == *final(r.x),
    {
        StupidRefMut { x: &mut self.x }
    }

    /// An exclusive borrow of the value held; the borrow never fails.
    pub fn try_borrow_mut(&mut self) -> (r: Result<StupidRefMut<'_, T>, BorrowMutError>)
        ensures
            r matches Ok(m) && *m.x == old(self)@ && final(self)@ == *final(m.x),
    {
        Ok(self.borrow_mut())
    }
}

impl<T: Copy> Clone for StupidRefCell<T> {
    fn clone(&self) -> (r: Self)
        ensures
            r@ == self@,
    {
        Self { x: self.x }
    }
}

impl<T: Copy> Copy for StupidRefCell<T> {

}

impl<T: Default> Default for StupidRefCell<T> {
    fn default() -> Self {
        Self { x: T::default() }
    }
}

} // verus!
