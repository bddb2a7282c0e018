[package]
name = "shuller"
version = "0.1.0"
edition = "2021"
publish = false

[dependencies]
url = "=2.5.8"
tinyrand = "=0.5.0"
serde = { version = "=1.0.229", features = ["derive"] }
thiserror = "=2.0.21"
reqwest = { version = "=0.13.5", default-features = false, features = ["json"] }
async-trait = "=0.1.92"
uller = { version = "=0.1.23", features = ["juller"] }
