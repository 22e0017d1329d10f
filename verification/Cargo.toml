[package]
name = "blackmagic_c2"
version = "0.1.0"
edition = "2021"
publish = false

[dependencies]
actix = "=0.13.5"
actix-web = { version = "=4.18.1", default-features = false, features = ["macros", "ws"] }
actix-web-actors = "=4.3.1"
awc = { version = "=3.11.0", default-features = false }
decklink = "=0.1.0"
futures = "=0.3.34"
gethostname = "=1.1.0"
ipnetwork = "=0.20.0"
juniper = { version = "=0.17.1", default-features = false }
libc = "=0.2.191"
pnet = "=0.35.0"
rmp-serde = "=1.3.1"
serde = { version = "=1.0.229", features = ["derive"] }
serde_json = "=1.0.154"
simple-error = "=0.3.3"
slog = "=2.8.2"
slog-async = "=2.8.0"
slog-scope = "=4.4.1"
slog-stdlog = "=4.1.1"
slog-term = "=2.9.2"
tokio = { version = "=1.54.1", features = ["full"] }
url = "=2.5.8"
uuid = { version = "=1.29.0", features = ["v4"] }
