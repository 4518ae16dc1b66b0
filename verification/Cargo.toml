[package]
name = "visolingua"
version = "0.1.0"
edition = "2021"
publish = false

[dependencies]
base64 = "*"
dirs = "*"
image = { version = "*", default-features = false, features = ["png"] }
reqwest = { version = "*", default-features = false, features = ["blocking", "json"] }
serde = { version = "*", features = ["derive"] }
serde_json = "*"
toml = "*"
xcap = "*"
