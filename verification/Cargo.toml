[package]
name = "mls_session"
version = "0.1.0"
edition = "2021"
publish = false

[dependencies]
openmls = "=0.6.0"
openmls_basic_credential = "=0.3.0"
openmls_rust_crypto = "=0.3.0"
tls_codec = "0.4"
serde_json = "1"
