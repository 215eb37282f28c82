[package]
name = "actix_web_middleware_cognito"
version = "0.1.0"
edition = "2021"
publish = false

[dependencies]
actix-service = "2"
actix-web = { version = "4", default-features = false }
actix-web-httpauth = "*"
futures = "0.3"
jsonwebtokens = "1"
jsonwebtokens-cognito = "0.1"
log = "0.4"
serde_json = "1"
