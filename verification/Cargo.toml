[package]
name = "big_iron"
version = "0.1.0"
edition = "2021"
publish = false

[dependencies]
binance_spot_connector_rust = { version = "*", default-features = false, features = ["enable-ureq", "enable-tungstenite"] }
chrono = "0.4"
lazy_static = "1"
plotters = { version = "0.3", default-features = false, features = ["svg_backend", "line_series"] }
rocket = "0.5"
rusqlite = { version = "*", features = ["bundled", "chrono"] }
serde = { version = "1", features = ["derive"] }
serde_json = "1"
tokio = { version = "1", features = ["rt-multi-thread", "time"] }
