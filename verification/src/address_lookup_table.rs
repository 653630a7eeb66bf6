//! Tables of addresses that a transaction can refer to by position.

pub mod state;
