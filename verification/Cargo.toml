[package]
name = "pokespeare"
version = "0.1.0"
edition = "2021"
publish = false

[dependencies]
envy = "0.4"
serde = { version = "1", features = ["derive"] }
serde_json = "1"
surf = "2"
tokio = { version = "1", features = ["macros", "rt-multi-thread"] }
warp = "0.3"
