[package]
name = "rog_quickswitch"
version = "0.1.0"
edition = "2021"
publish = false

[dependencies]
anyhow = "1"
glib = "0.20"
gtk4 = { version = "0.9", features = ["v4_12"] }
libadwaita = { version = "0.7", features = ["v1_5"] }
serde = { version = "1", features = ["derive"] }
tokio = { version = "1", features = ["rt-multi-thread"] }
zbus = "5"
