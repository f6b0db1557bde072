[package]
name = "trophy_lodge"
version = "0.1.0"
edition = "2021"
publish = false

[dependencies]
chrono = "=0.4.45"
convert_case = "=0.12.0"
csv = "=1.4.0"
egui = { version = "0.27", default-features = false, features = ["default_fonts"] }
egui_extras = { version = "0.27", default-features = false, features = ["file", "image"] }
image = { version = "0.24", default-features = false, features = ["png"] }
proc_mem = "=0.1.6"
rand = "=0.10.3"
serde = { version = "=1.0.229", features = ["derive"] }
serde_json = "=1.0.154"
