[package]
name = "rust_in_space"
version = "0.1.0"
edition = "2021"
publish = false

[dependencies]
leptos = { version = "=0.3.1", features = ["stable"] }
reqwasm = "=0.5.0"
serde = { version = "=1.0.229", features = ["derive"] }
thiserror = "=1.0.69"
log = "=0.4.34"
console_log = "=1.1.0"
console_error_panic_hook = "=0.1.7"
