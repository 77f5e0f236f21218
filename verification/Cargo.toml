[package]
name = "indexer_core"
version = "0.1.0"
edition = "2021"
publish = false

[dependencies]
anyhow = "=1.0.104"
axum = "=0.8.9"
base64 = "=0.23.1"
blake2b_simd = "=1.0.5"
hex = "=0.4.3"
orchard = "=0.16.0"
sapling-crypto = "=0.9.0"
serde = { version = "=1.0.229", features = ["derive"] }
serde_json = "=1.0.154"
thiserror = "=2.0.21"
tokio = { version = "=1.54.1", features = ["full"] }
tracing = "=0.1.44"
tracing-subscriber = { version = "=0.3.23", features = ["env-filter"] }
wasm-bindgen = "=0.2.129"
zcash_keys = { version = "=0.17.0", features = ["sapling", "orchard"] }
zcash_note_encryption = "=0.5.1"
zcash_primitives = "=0.31.0"
zcash_protocol = "=0.11.0"
zip32 = "=0.3.0"

[dev-dependencies]
ff = "=0.14.0"
group = "=0.14.0"
jubjub = "=0.11.1"
nonempty = "=0.11.0"
rand = "=0.10.3"
redjubjub = "=0.9.0"
zcash_address = "=0.14.0"
