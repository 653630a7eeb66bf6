//! The resource sets and resource types of the token programs.

pub mod token_2022;
pub mod token_interface;
