[package]
name = "vocab_flashcards"
version = "0.1.0"
edition = "2021"
publish = false

[dependencies]
diesel = { version = "2", features = ["sqlite"] }
libsqlite3-sys = { version = "*", features = ["bundled"] }
log = "0.4"
env_logger = "*"
chrono = "0.4"
