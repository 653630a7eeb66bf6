//! Bounded stand-ins for the standard collections.

pub mod hashmap;
