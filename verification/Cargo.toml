[package]
name = "juicebox-plus"
version = "0.1.0"
edition = "2021"
publish = false

[dependencies]
serde = { version = "1", features = ["derive"] }
serde_json = "1"
reqwest = { version = "0.12", default-features = false, features = ["json", "stream", "rustls-tls"] }
tokio = { version = "1", features = ["full"] }
tokio-tungstenite = "*"
futures-util = "0.3"
bytes = "1"
toml = "*"
dirs = "*"
tracing = "0.1"
tracing-subscriber = { version = "0.3", features = ["env-filter"] }
thiserror = "*"
gethostname = "*"
tinyfiledialogs = "*"
notify-rust = "4"
zbus = "*"
tao = "*"
tray-icon = "*"
arboard = "*"
image = { version = "*", default-features = false, features = ["png"] }
