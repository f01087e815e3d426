[package]
name = "mest_net"
version = "0.1.0"
edition = "2021"
publish = false

[dependencies]
chrono = { version = "=0.4.45", features = ["serde"] }
takecell = "=0.1.1"
teloxide = { version = "0.12", default-features = false, features = ["macros", "rustls", "ctrlc_handler"] }
tokio = { version = "1", features = ["rt-multi-thread", "macros", "sync", "time"] }
scc = "2"
serde = { version = "1", features = ["derive"] }
serde_json = "1"
dptree = "0.3"
log = "0.4"
lazy_static = "1"
anyhow = "1"
thiserror = "1"
futures = "0.3"
sea-orm = { version = "1", features = ["sqlx-postgres", "runtime-tokio-rustls", "with-json"] }
skytable = "0.8"
bb8 = "0.9"
dotenv = "0.15"
