[package]
name = "kbs2"
version = "0.1.0"
edition = "2021"
publish = false

[dependencies]
age = { version = "0.11", features = ["armor"] }
anyhow = "1"
arboard = { version = "3", default-features = false }
atty = "0.2"
clap = { version = "4", features = ["env"] }
clap_complete = "4"
daemonize = "0.5"
env_logger = "0.11"
home = "0.5"
inquire = "0.7"
lazy_static = "1"
log = "0.4"
nix = { version = "0.29", features = ["socket", "user", "process"] }
pinentry = "0.6"
rand = "0.8"
rpassword = "7"
secrecy = "0.10"
serde = { version = "1", features = ["derive"] }
serde_json = "1"
shell-words = "1"
shellexpand = "3"
tempfile = "3"
toml = "0.8"
whoami = "1"
