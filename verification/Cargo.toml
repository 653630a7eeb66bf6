[package]
name = "otter_solana"
version = "0.1.0"
edition = "2021"
publish = false

[dependencies]
syn = { version = "1", features = ["full", "extra-traits"] }
quote = "1"
proc-macro2 = "1"
anchor-syn = "0.29"
anyhow = "1"
thiserror = "1"
darling = "0.14"
hex = "0.4"
borsh = "0.10"
