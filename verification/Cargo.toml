[package]
name = "moat"
version = "0.1.0"
edition = "2021"
publish = false

[dependencies]
webauthn-rs = "0.5"
webauthn-rs-proto = "0.5"
urlencoding = "2"
jsonxf = "1"
syntect = { version = "5", default-features = false, features = ["default-fancy"] }
human_id = "*"
serde_json = "1"
rocket = { version = "0.5", features = ["json"] }
rocket-session-store = "*"
sea-orm = { version = "1", default-features = false, features = ["macros", "with-json"] }
sea-orm-migration = { version = "1", default-features = false }
sea-orm-rocket = "*"
askama = "0.12"
async-trait = "*"
