//! A string of bytes.

use vstd::prelude::*;

verus! {

/// A string, kept as its bytes.
#[derive(Debug)]
pub struct String {
    vec: Vec<u8>,
}

impl View for String {
    type V = Seq<u8>;

    /// The bytes of the string.
    closed spec fn view(&self) -> Seq<u8> {
        self.vec@
    }
}

impl String {
    /// The empty string.
    pub fn new() -> (s: String)
        ensures
            s@ == Seq::<u8>::empty(),
    {
        String { vec: Vec::new() }
    }

    /// The number of bytes in the string.
    pub fn vec_len(&self) -> (n: usize)
        ensures
            n == self@.len(),
    {
        self.vec.len()
    }
}

impl Default for String {
    /// The empty string.
    fn default() -> (s: Self)
        ensures
            s@ == Seq::<u8>::empty(),
    {
        String::new()
    }
}

} // verus!
