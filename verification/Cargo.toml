[package]
name = "mailproc"
version = "0.1.0"
edition = "2021"
publish = false

[dependencies]
dirs = "=7.0.0"
log = "=0.4.34"
mailparse = "=0.18.0"
regex = "=1.13.1"
serde = "=1.0.229"
serde_derive = "=1.0.229"
subprocess = "=0.2.15"
toml = "=1.1.8"
