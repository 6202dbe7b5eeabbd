[package]
name = "gantt_page"
version = "0.1.0"
edition = "2021"
publish = false

[dependencies]
axum = "0.4"
dirs-next = "2"
tera = "1"
tokio = { version = "1", features = ["macros", "rt-multi-thread"] }
toml = "0.5"
