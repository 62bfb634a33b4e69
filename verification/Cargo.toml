[package]
name = "confirm_auth"
version = "0.1.0"
edition = "2021"
publish = false

[dependencies]
rust-argon2 = "=0.8.3"
uuid = { version = "=1.29.0", features = ["v4"] }
serde = { version = "1", features = ["derive"] }
serde_json = "1"
actix-web = { version = "=4.18.1", default-features = false, features = ["macros", "cookies", "rustls"] }
actix-session = { version = "=0.7.2", features = ["cookie-session"] }
actix-files = "0.6"
lettre = { version = "=0.10.4", default-features = false, features = ["smtp-transport", "builder", "hostname", "rustls-tls"] }
r2d2 = "0.8"
r2d2_sqlite = "=0.21.0"
rand = "0.8"
rustls = "0.20"
rustls-pemfile = "1"
dotenv = "0.15"
