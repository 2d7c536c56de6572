[package]
name = "fwcloud_agent"
version = "0.1.0"
edition = "2021"
publish = false

[dependencies]
actix = "=0.13.5"
actix-multipart = "=0.6.2"
actix-service = "=2.0.3"
actix-web = { version = "=4.18.1", default-features = false, features = ["macros", "openssl", "ws"] }
actix-web-actors = "=4.3.1"
chrono = { version = "=0.4.45", default-features = false, features = ["std"] }
dotenvy = "=0.15.7"
env_logger = "=0.11.11"
futures = "=0.3.34"
hex = "=0.4.3"
log = "=0.4.34"
openssl = "=0.10.81"
rand = "=0.9.5"
rand_distr = "=0.5.1"
regex = "=1.13.1"
sanitize-filename = "=0.6.0"
serde = { version = "=1.0.229", features = ["derive"] }
serde_json = "=1.0.154"
sha2 = "=0.10.9"
subprocess = "=0.2.15"
sysinfo = "=0.39.6"
thiserror = "=2.0.21"
thread-id = "=5.1.0"
tokio = { version = "=1.54.1", features = ["sync"] }
uuid = { version = "=1.29.0", features = ["v4", "serde"] }
