[package]
name = "spotifav"
version = "0.1.0"
edition = "2021"
publish = false

[dependencies]
directories = "*"
open = "*"
rspotify = { version = "*", default-features = false, features = ["client-reqwest", "reqwest-rustls-tls"] }
serde = { version = "*", features = ["derive"] }
tokio = { version = "*", features = ["macros", "rt-multi-thread", "time"] }
toml = "*"
