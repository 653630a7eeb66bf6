//! A model of the run-time environment that handlers are written against:
//! keys, account descriptors and bounded collections.

pub mod account_info;
pub mod borsh;
pub mod clock;
pub mod collections;
pub mod error;
pub mod fake;
pub mod incinerator;
pub mod instruction;
pub mod key;
pub mod program_error;
pub mod program_memory;
pub mod program_pack;
pub mod pubkey;
pub mod string;
pub mod stupid_refcell;
pub mod system_program;
pub mod sysvar;
pub mod vec;
