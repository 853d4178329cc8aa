[package]
name = "spotify_player"
version = "0.1.0"
edition = "2021"
publish = false

[dependencies]
anyhow = "=1.0.104"
chrono = "=0.4.45"
librespot-core = "=0.2.0"
log = "=0.4.35"
lru = "=0.12.5"
reqwest = { version = "=0.11.27", default-features = false, features = ["json", "rustls-tls"] }
rspotify = { version = "=0.13.3", default-features = false, features = ["client-ureq", "ureq-rustls-tls"] }
serde = { version = "=1.0.229", features = ["derive"] }
tokio = { version = "=1.54.1", features = ["macros", "rt", "rt-multi-thread", "time"] }
