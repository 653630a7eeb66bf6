//! Bounded stand-ins for growable vectors.

pub mod fast;
pub mod sparse;
