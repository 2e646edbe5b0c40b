[package]
name = "ribbon"
version = "0.1.0"
edition = "2021"
publish = false

[dependencies]
actix-cors = "0.7"
actix-multipart = { version = "0.7", default-features = false, features = ["derive"] }
actix-web = { version = "4", default-features = false, features = ["macros", "cookies"] }
async-once-cell = "0.5"
base64 = "=0.22.1"
chrono = { version = "0.4", default-features = false, features = ["clock", "serde", "std"] }
clap = { version = "4", features = ["derive"] }
dashmap = "=6.2.1"
env_logger = { version = "0.11", default-features = false }
futures = "0.3"
jsonwebtoken = "9"
log = "0.4"
once_cell = "=1.21.4"
p384 = { version = "=0.13.1", features = ["ecdsa"] }
rand = "=0.9.5"
reqwest = { version = "0.12", default-features = false, features = ["json", "rustls-tls"] }
serde = { version = "=1.0.229", features = ["derive"] }
serde-aux = { version = "4", default-features = false }
serde_json = "=1.0.154"
serde_repr = "=0.1.21"
sqlx = { version = "0.8", default-features = false, features = ["runtime-tokio", "postgres", "chrono", "json", "macros"] }
thiserror = "=2.0.21"
tokio = { version = "1", features = ["rt-multi-thread", "macros"] }
twilight-gateway = { version = "=0.16.0", default-features = false, features = ["rustls-ring", "rustls-webpki-roots"] }
twilight-http = { version = "=0.16.0", default-features = false, features = ["rustls-ring", "rustls-webpki-roots"] }
twilight-model = "=0.16.0"
twilight-util = { version = "=0.16.0", features = ["builder"] }
