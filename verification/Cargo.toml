[package]
name = "curve_launchpad"
version = "0.1.0"
edition = "2021"
publish = false

[dependencies]
anchor-lang = { version = "0.30.1", features = ["event-cpi", "init-if-needed"] }
anchor-spl = { version = "0.30.1", features = ["memo"] }
spl-associated-token-account = { version = "3", default-features = false, features = ["no-entrypoint"] }
spl-tlv-account-resolution = "0.6"
spl-transfer-hook-interface = "0.6"
