[package]
name = "tokenscope"
version = "0.1.0"
edition = "2021"
publish = false

[dependencies]
anyhow = "1"
clap = { version = "4", features = ["derive", "env"] }
dirs = "6"
indicatif = "0.17"
inquire = "0.7"
mpl-token-metadata = "5"
solana-account = "2"
spl-associated-token-account = "7"
spl-pod = "0.5"
spl-token = "8"
spl-token-2022 = "8"
tokio = { version = "1", features = ["macros", "rt-multi-thread"] }
