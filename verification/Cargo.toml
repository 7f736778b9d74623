[package]
name = "mkpclient"
version = "0.1.0"
edition = "2021"
publish = false

[dependencies]
sha2 = "0.10"
hex = "0.4"
rustls-pemfile = "2"
rustls = "0.23"
rcgen = "0.13"
imbl = "*"
serde = { version = "1", features = ["derive"] }
toml = "0.8"
rmp-serde = "1"
log = "0.4"
opslag = "*"
socket2 = "0.5"
sysinfo = "*"
arboard = "3"
drv = "*"
