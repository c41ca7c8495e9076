[package]
name = "todo_tui"
version = "0.1.0"
edition = "2021"
publish = false

[dependencies]
crossterm = "0.25"
serde = { version = "1", features = ["derive"] }
serde_json = "1"
thiserror = "1"
tui = { version = "0.19", default-features = false, features = ["crossterm"] }
