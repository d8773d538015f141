[package]
name = "sof"
version = "0.1.0"
edition = "2021"
publish = false

[dependencies]
base64 = "0.22"
bincode = "1"
core_affinity = "0.8"
crossbeam-queue = "0.3"
crossbeam-skiplist = "0.1"
futures-util = "0.3"
libc = "0.2"
nix = { version = "0.30", features = ["poll", "socket", "net", "time", "uio"] }
reqwest = { version = "0.12", default-features = false, features = ["json", "rustls-tls"] }
serde = { version = "1", features = ["derive"] }
serde_json = "1"
simd-json = "0.15"
socket2 = "0.6"
solana-hash = "3"
solana-message = { version = "3", features = ["serde"] }
solana-pubkey = "3"
solana-sdk-ids = "3"
solana-signature = "3"
solana-system-interface = "2"
solana-transaction = { version = "3", features = ["bincode", "serde"] }
thiserror = "2"
tokio = { version = "1", features = ["macros", "net", "rt-multi-thread", "sync", "time", "io-util"] }
tokio-tungstenite = { version = "0.28", features = ["rustls-tls-webpki-roots"] }
yellowstone-grpc-client = "10"
yellowstone-grpc-proto = { version = "10", default-features = false }
