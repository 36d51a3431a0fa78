[package]
name = "ronway-scanner"
version = "0.1.0"
edition = "2021"
publish = false

[dependencies]
x509-parser = "0.16"
chrono = { version = "0.4", default-features = false, features = ["clock", "std"] }
anyhow = "1"
thiserror = "1"
serde = { version = "1", features = ["derive"] }
serde_json = "1"
tokio = { version = "1", features = ["full"] }
rustls = { version = "0.23", default-features = false, features = ["ring", "std", "tls12", "logging"] }
tokio-rustls = { version = "0.26", default-features = false, features = ["ring", "tls12", "logging"] }
reqwest = { version = "0.12", default-features = false, features = ["rustls-tls"] }
axum = "0.7"
tower = "0.4"
tower-http = { version = "0.5", features = ["cors"] }
sqlx = { version = "0.8", default-features = false, features = ["sqlite", "runtime-tokio"] }
clap = { version = "4", features = ["derive"] }
colored = "2"
futures = "0.3"
printpdf = { version = "0.7", default-features = false }
tracing = "0.1"
tracing-subscriber = { version = "0.3", features = ["env-filter"] }

[dev-dependencies]
rcgen = "0.13"
time = "0.3"
