[package]
name = "fluid"
version = "0.1.0"
edition = "2021"
publish = false

[dependencies]
rayon = "=1.12.0"
serde = { version = "=1.0.229", features = ["derive"] }
serde_json = "=1.0.154"
toml = "=0.8.23"
ureq = { version = "=2.12.1", default-features = false, features = ["json"] }
log = "=0.4.35"
clap = { version = "=4.6.7", features = ["derive"] }
tiny_http = "=0.12.0"
rmp-serde = "=1.3.1"
directories = "=5.0.1"
env_logger = "=0.11.11"
crossbeam-channel = "=0.5.17"
arc-swap = "=1.9.3"
gltf = "=1.4.1"
tobj = "=4.0.5"
stl_io = "=0.8.6"
faer = "*"
glam = "*"
