[package]
name = "gpm"
version = "0.1.0"
edition = "2021"
publish = false

[dependencies]
anyhow = "=1.0.104"
clap = { version = "=4.6.7", features = ["derive", "env"] }
decompress = "=0.6.0"
directories = "=6.0.0"
dotenvy = "=0.15.7"
gag = "=1.0.0"
infer = "=0.22.0"
octocrab = "=0.53.1"
reqwest = { version = "=0.12.28", default-features = false, features = ["rustls-tls", "stream"] }
tokio = { version = "=1.53.2", features = ["macros", "rt-multi-thread"] }
tracing = "=0.1.44"
tracing-subscriber = { version = "=0.3.23", features = ["env-filter"] }
