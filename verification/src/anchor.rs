//! The accessor types through which a handler reaches its resources.

pub mod account;
pub mod context;
pub mod interface;
pub mod program;
pub mod signer;
pub mod system_program;
pub mod sysvar;
pub mod traits;
