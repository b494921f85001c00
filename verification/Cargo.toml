[package]
name = "rs_api"
version = "0.1.0"
edition = "2021"
publish = false

[dependencies]
moka = { version = "*", features = ["sync"] }
serde_json = "*"
serde = { version = "*", features = ["derive"] }
actix-web = { version = "*", default-features = false, features = ["macros"] }
actix-cors = "*"
reqwest = { version = "*", default-features = false, features = ["json"] }
log = "*"
env_logger = "*"
dotenv = "*"
thiserror = "*"
