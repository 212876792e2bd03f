[package]
name = "cadmium"
version = "0.1.0"
edition = "2021"
publish = false

[dependencies]
rand = "=0.8.8"
toml = "=1.1.8"
nix = { version = "=0.31.3", features = ["process", "signal", "user", "fs"] }
users = "=0.11.0"
xcb = "=1.7.1"
pam = "0.7"
rpassword = "=7.5.4"
chvt = "=0.2.0"
log = "=0.4.34"
flexi_logger = "=0.31.10"
