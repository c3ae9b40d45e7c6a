[package]
name = "dictionary_api"
version = "0.1.0"
edition = "2021"
publish = false

[dependencies]
actix-cors = "*"
actix-governor = "*"
actix-web = "4"
base64 = "0.22"
dotenv = "0.15"
futures-util = "0.3"
gcp-bigquery-client = "*"
serde = { version = "1", features = ["derive"] }
serde_json = "1"
shuttle-actix-web = "*"
shuttle-runtime = "*"
tokio = { version = "1", features = ["time"] }
validator = { version = "0.16", features = ["derive"] }
yup-oauth2 = "*"
