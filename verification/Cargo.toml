[package]
name = "guarded_templates"
version = "0.1.0"
edition = "2021"
publish = false

[dependencies]
minijinja = { version = "2", features = ["loader"] }
once_cell = "1"
serde = { version = "1", features = ["derive"] }
serde_json = "1"
valico = "*"
wee_alloc = "0.4"
