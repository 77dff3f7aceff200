[package]
name = "captive_portal"
version = "0.1.0"
edition = "2021"
publish = false

[dependencies]
bcrypt = "=0.17.1"
bson = "=2.15.0"
chrono = { version = "=0.4.45", features = ["serde"] }
jsonwebtoken = "=9.3.1"
ldap3 = { version = "=0.11.5", default-features = false }
rand = "=0.9.5"
regex = "=1.13.1"
reqwest = { version = "=0.12.28", default-features = false, features = ["json", "cookies", "rustls-tls"] }
rocket = { version = "=0.5.2", features = ["json", "secrets"] }
rocket_cors = "=0.6.0"
rocket_db_pools = { version = "=0.2.0", features = ["mongodb"] }
serde = { version = "=1.0.229", features = ["derive"] }
serde_json = "=1.0.154"
tokio = { version = "=1.54.1", features = ["sync", "time", "rt"] }
