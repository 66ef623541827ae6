[package]
name = "cbuilder"
version = "0.1.0"
edition = "2021"
publish = false

[dependencies]
async-trait = "0.1"
chrono = "0.4"
clap = "2"
dirs = "*"
flate2 = "1"
futures = "0.3"
regex = "1"
rusoto_cloudformation = { version = "0.48", default-features = false, features = ["rustls"] }
rusoto_core = { version = "0.48", default-features = false, features = ["rustls"] }
rusoto_ec2 = { version = "0.48", default-features = false, features = ["rustls"] }
rusoto_sts = { version = "0.48", default-features = false, features = ["rustls"] }
serde = { version = "1", features = ["derive"] }
serde_yaml = "0.8"
ssh2 = "0.9"
tar = "0.4"
tokio = { version = "1", features = ["macros", "rt-multi-thread"] }
