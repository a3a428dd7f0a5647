[package]
name = "filedrop"
version = "0.1.0"
edition = "2021"
publish = false

[dependencies]
uuid = { version = "1", features = ["v4", "serde"] }
serde = { version = "1", features = ["derive"] }
serde_json = "1"
anyhow = "1"
tokio = { version = "1", features = ["full"] }
futures = "0.3"
axum = { version = "0.6", features = ["multipart"] }
tower-http = { version = "0.4", features = ["fs"] }
sqlx = { version = "0.7", default-features = false, features = ["postgres", "runtime-tokio"] }
reqwest = { version = "0.11", default-features = false, features = ["multipart"] }
dirs = "5"
once_cell = "1"
open = "5"
sse-client = "1"
pinboard = "2"
tinyfiledialogs = "3"
eframe = { version = "0.22", default-features = false, features = ["glow", "default_fonts", "wayland"] }
egui = { version = "0.22", default-features = false, features = ["default_fonts"] }
