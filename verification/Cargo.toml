[package]
name = "group_title"
version = "0.1.0"
edition = "2021"
publish = false

[dependencies]
bincode = "=1.3.3"
chrono = { version = "=0.4.45", default-features = false, features = ["std"] }
chrono-tz = "=0.8.6"
console_error_panic_hook = "=0.1.7"
log = "=0.4.34"
new_string_template = "=1.5.3"
serde = { version = "=1.0.229", features = ["derive"] }
serde_json = "=1.0.154"
telegram_types = "=0.7.0"
worker = "=0.8.7"
