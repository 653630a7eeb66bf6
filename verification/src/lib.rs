//! Synthesis of bounded verification harnesses for instruction handlers,
//! together with the bounded resource pool the harnesses drive.

pub mod address_lookup_table;
pub mod anchor;
pub mod anchor_spl;
pub mod macro_core;
pub mod pool;
pub mod program;
