[package]
name = "two_four_eighteen"
version = "0.1.0"
edition = "2021"
publish = false

[dependencies]
rand = { version = "=0.9.5", default-features = false, features = ["small_rng"] }
embedded-graphics = "=0.8.2"
embedded-graphics-framebuf = "=0.5.0"
u8g2-fonts = "=0.8.0"
num-traits = { version = "=0.2.19", default-features = false }
display-interface = "=0.5.0"
ssd1306 = { version = "=0.10.0", features = ["async"] }
embassy-futures = "=0.1.2"
embassy-sync = "=0.8.0"
embassy-time = "=0.5.1"
embassy-net = { version = "=0.9.1", features = ["tcp", "dhcpv4", "dns", "proto-ipv4", "medium-ethernet"] }
static_cell = "=2.1.1"
axum = "=0.8.9"
tokio = { version = "=1.54.1", features = ["full"] }
chrono = { version = "=0.4.45", features = ["serde"] }
serde = { version = "=1.0.229", features = ["derive"] }
serde_json = "=1.0.154"
