[package]
name = "riemann_egui_dash"
version = "0.1.0"
edition = "2021"
publish = false

[dependencies]
url = "2"
serde_json = "1"
time = { version = "0.3", features = ["parsing"] }
eframe = "0.18"
egui_extras = "0.18"
ewebsock = "0.2"
tokio = { version = "1", features = ["macros", "rt-multi-thread"] }
tracing-subscriber = "0.3"
