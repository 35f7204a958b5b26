[package]
name = "iclip"
version = "0.1.0"
edition = "2021"
publish = false

[dependencies]
rand = "0.8"
regex = "1"
url = "2"
chrono = "0.4"
async-lock = "3"
serde = { version = "1", features = ["derive"] }
serde_json = "1"
dotenv = "0.15"
fern = "0.7"
log = "0.4"
clokwerk = "0.4"
diesel = { version = "2", features = ["postgres", "chrono"] }
aws-config = { version = "1", default-features = false }
aws-sdk-s3 = { version = "1", default-features = false }
rocket = { version = "0.5", features = ["json"] }
redis = "*"
