[package]
name = "bug_triage"
version = "0.1.0"
edition = "2021"
publish = false

[dependencies]
serde_json = "1"
base64 = "0.22"
dotenvy = "0.15"
html-escape = "0.2"
reqwest = { version = "0.12", default-features = false, features = ["blocking"] }
