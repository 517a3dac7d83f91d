[package]
name = "storm_backend"
version = "0.1.0"
edition = "2021"
publish = false

[dependencies]
async-stripe-webhook = "=1.0.0-rc.10"
async-stripe-shared = "=1.0.0-rc.10"
actix-web = "=4.18.1"
clap = { version = "=4.6.7", features = ["derive"] }
tokio = { version = "=1.54.1", features = ["macros", "rt-multi-thread", "sync"] }
reqwest = { version = "=0.13.5", features = ["json"] }
lettre = { version = "=0.11.23", default-features = false, features = ["builder", "hostname", "smtp-transport", "pool", "tokio1", "tokio1-rustls-tls"] }
serde = { version = "=1.0.229", features = ["derive"] }
serde_json = "=1.0.154"
rand = "=0.10.3"
tracing = "=0.1.44"
tracing-subscriber = { version = "=0.3.23", features = ["env-filter"] }
tracing-actix-web = "=0.7.25"
thiserror = "=2.0.21"
toasty = "=0.11.0"
jiff = "=0.2.43"
