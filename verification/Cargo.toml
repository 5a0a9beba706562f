[package]
name = "csv_share_hub"
version = "0.1.0"
edition = "2021"
publish = false

[dependencies]
uuid = { version = "=1.27.0", features = ["v4"] }
actix-web = "4"
actix-multipart = "=0.8.5"
futures-util = "*"
diesel = { version = "=2.3.14", features = ["sqlite", "r2d2", "chrono"] }
libsqlite3-sys = { version = "*", features = ["bundled"] }
diesel_migrations = "2"
clap = { version = "4", features = ["derive", "env"] }
dotenv = "*"
env_logger = "*"
log = "*"
serde = { version = "*", features = ["derive"] }
serde_json = "*"
chrono = { version = "*", features = ["serde"] }
js-sys = "*"
wasm-bindgen = "*"
