[package]
name = "otty"
version = "0.1.0"
edition = "2021"

[dependencies]
cursor-icon = "=1.2.0"
flume = { version = "=0.12.0", default-features = false }
iced = { version = "=0.14.0", default-features = false, features = ["tiny-skia", "thread-pool", "x11"] }
iced_core = "=0.14.0"
iced_widget = { version = "=0.14.2", default-features = false }
log = "0.4"
mio = { version = "=1.2.4", features = ["os-poll", "net"] }
serde = { version = "=1.0.229", features = ["derive"] }
serde_json = "=1.0.154"
ssh2 = "=0.9.6"
tokio = { version = "=1.54.1", default-features = false, features = ["sync"] }
