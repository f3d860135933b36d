[package]
name = "api"
version = "0.1.0"
edition = "2021"
publish = false

[dependencies]
actix-cors = "*"
actix-web = { version = "*", default-features = false, features = ["macros"] }
bcrypt = "*"
bigdecimal = { version = "*", features = ["serde"] }
chrono = { version = "*", features = ["serde"] }
dotenvy = "*"
log = "*"
serde = { version = "*", features = ["derive"] }
serde_json = "*"
sqlx = { version = "*", default-features = false, features = ["mysql", "runtime-tokio", "chrono", "bigdecimal", "derive"] }
thiserror = "*"
