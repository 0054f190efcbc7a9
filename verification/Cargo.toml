[package]
name = "restaurant_orders"
version = "0.1.0"
edition = "2021"
publish = false

[dependencies]
rusqlite = { version = "=0.40.2", features = ["bundled"] }
rand = "=0.10.3"
serde = { version = "1", features = ["derive"] }
tokio = { version = "1", features = ["macros", "rt-multi-thread"] }
warp = { version = "=0.4.3", features = ["server"] }
confy = "=2.0.0"
pretty_env_logger = "=0.5.0"
