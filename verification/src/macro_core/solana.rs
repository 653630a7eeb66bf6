//! The generators in the form that programs without a context use.

pub mod space;
