[package]
name = "time_tracker"
version = "0.1.0"
edition = "2021"
publish = false

[dependencies]
cookie = { version = "*", features = ["private", "key-expansion"] }
actix-web = "4"
serde = { version = "*", features = ["derive"] }
toml = "*"
lazy_static = "*"
dotenv = "*"
futures-util = "*"
