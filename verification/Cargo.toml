[package]
name = "wallet_core"
version = "0.1.0"
edition = "2021"
publish = false

[dependencies]
bip0039 = "=0.14.2"
zcash_address = "=0.14.0"
zcash_client_backend = { version = "=0.25.0", features = ["lightwalletd-tonic-tls-webpki-roots", "lightwalletd-tonic-transport", "orchard", "transparent-inputs"] }
zcash_keys = { version = "=0.17.0", features = ["orchard", "sapling", "transparent-inputs", "unstable"] }
zcash_protocol = "=0.11.0"
zcash_transparent = "=0.11.0"
zip32 = "=0.3.0"
secrecy = "=0.8.0"
tokio = { version = "=1.54.1", features = ["macros", "rt-multi-thread"] }
tonic = { version = "=0.14.6", features = ["tls-ring", "tls-native-roots"] }
rusqlite = "=0.37.0"
zcash_client_sqlite = { version = "=0.23.0", features = ["orchard", "transparent-inputs", "unstable"] }
zcash_proofs = { version = "=0.31.0", features = ["bundled-prover"] }
rand = "=0.10.3"
rand_core = "=0.10.1"
time = "=0.3.55"
dotenvy = "=0.15.7"
