[package]
name = "rwz_pof"
version = "0.1.0"
edition = "2021"
publish = false

[dependencies]
bincode = "1"
k256 = "0.13"
risc0-zkvm = "1"
serde = { version = "1", features = ["derive"] }
thiserror = "1"
time = { version = "0.3", features = ["formatting", "parsing", "serde"] }
tokio = { version = "1", features = ["macros", "rt-multi-thread"] }
tracing-subscriber = { version = "0.3", features = ["env-filter"] }
uuid = { version = "1", features = ["v4"] }
warp = "0.3"

[dev-dependencies]
rand_core = { version = "0.6", features = ["getrandom"] }
