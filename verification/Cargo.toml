[package]
name = "stormint"
version = "0.1.0"
edition = "2021"
publish = false

[dependencies]
alloy = { version = "0.8", default-features = false, features = ["std", "contract", "dyn-abi", "json-abi", "network", "provider-http", "signer-local", "signer-mnemonic"] }
alloy-provider = { version = "0.8", default-features = false, features = ["reqwest"] }
alloy-transport-http = { version = "0.8", default-features = false, features = ["reqwest"] }
eyre = "0.6"
rayon = "1"
