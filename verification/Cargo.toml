[package]
name = "lnpbp_invoice"
version = "0.1.0"
edition = "2021"

[dependencies]
bitcoin = "=0.26.2"
miniscript = { version = "=5.2.0", features = ["compiler"] }
chrono = "=0.4.45"
lnpbp = "=0.4.0"
internet2 = { version = "=0.3.10", default-features = false }
descriptor-wallet = "=0.4.1"
strict_encoding = { version = "=1.2.3", features = ["miniscript"] }
strict_encoding_derive = "=1.0.0"
lightning_encoding = "=0.4.0-beta.1"
bp-consensus = "0.12"
bp-dbc = "0.12"
commit_verify = "0.12"
single_use_seals = "=0.10.1"
