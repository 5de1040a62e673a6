[package]
name = "tighterror_build"
version = "0.1.0"
edition = "2021"
publish = false

[dependencies]
convert_case = "0.6"
regex = "1"
toml = "0.8"
serde_yaml = "0.9"
syn = { version = "2", features = ["full"] }
prettyplease = "0.2"
proc-macro2 = "1"
quote = "1"
tempfile = "3"
clap = { version = "4", features = ["derive"] }
pretty_env_logger = "0.5"
log = "0.4"
