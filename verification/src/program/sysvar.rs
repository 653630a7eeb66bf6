//! The identities of the system variables.

pub mod rent;
