//! The generators: from a handler's declaration and contract to the source
//! of the proof functions that check it.

pub mod access_control;
pub mod account;
pub mod arbitrary;
pub mod contract;
pub mod error;
pub mod harness;
pub mod helper_fn;
pub mod invariants;
pub mod program;
pub mod render;
pub mod solana;
pub mod space;
pub mod syntax;
pub mod text;
pub mod tokens;
pub mod unpackable;
pub mod verify;
