[package]
name = "nordvpn_viking"
version = "0.1.0"
edition = "2021"
publish = false

[dependencies]
byte-unit = "4"
chrono = { version = "0.4", default-features = false, features = ["std"] }
regex = "1"
semver = "1"
slug = "0.1"
const_format = "0.2"
git2 = { version = "0.13", default-features = false }
glob = "0.3"
once_cell = "1"
serde = { version = "1", features = ["derive"] }
strong-xml = "0.6"
strum = { version = "0.23", features = ["derive"] }
thiserror = "1"
