[package]
name = "ppslib"
version = "0.1.0"
edition = "2021"
publish = false

[dependencies]
sha2 = "0.8"
rand = "0.7"
chrono = { version = "0.4", features = ["serde"] }
time = "0.1"
serde = { version = "1", features = ["derive"] }
serde_json = "1"
rocket = "0.4"
rocket_contrib = { version = "0.4", default-features = false, features = ["tera_templates", "helmet", "serve"] }
rocket-slog = "0.4"
diesel = { version = "1.4", features = ["postgres", "chrono"] }
rusoto_core = { version = "0.42", default-features = false, features = ["rustls"] }
rusoto_dynamodb = { version = "0.42", default-features = false, features = ["rustls"] }
rusoto_secretsmanager = { version = "0.42", default-features = false, features = ["rustls"] }
config = "0.9"
dotenv = "0.15"
once_cell = "1"
slog = "2"
slog-bunyan = "2"
