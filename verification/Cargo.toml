[package]
name = "auth_core"
version = "0.1.0"
edition = "2021"
publish = false

[dependencies]
argon2 = "0.5"
password-hash = "0.5"
rand = "0.8"
sha2 = "0.10"
base64 = "0.22"
chrono = "0.4"
log = "0.4"
serde = { version = "1", features = ["derive"] }
serde_json = "1"
actix-web = "4"
actix-files = "0.6"
authlogic = "*"
dotenvy = "0.15"
env_logger = "0.11"
envy = "0.4"
lettre = { version = "0.11", default-features = false, features = ["builder", "smtp-transport"] }
sqlx = { version = "0.8", default-features = false, features = ["sqlite", "runtime-tokio", "chrono", "derive"] }
string_template = "*"
