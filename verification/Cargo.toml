[package]
name = "bl3_save_edit_ui"
version = "0.1.0"
edition = "2021"
publish = false

[dependencies]
heck = "0.3"
anyhow = "1"
tracing = "0.1"
strum = { version = "0.21", features = ["derive"] }
rayon = "1"
native-dialog = "0.5"
iced = "0.3"
