[package]
name = "todo_tui"
version = "0.1.0"
edition = "2021"
publish = false

[dependencies]
tuie = "*"
chord_macro = "*"
serde = { version = "1", features = ["derive"] }
serde_json = "1"
