[package]
name = "pingora_reverse_proxy"
version = "0.1.0"
edition = "2021"
publish = false

[dependencies]
async-trait = "=0.1.92"
http = "=1.5.0"
jemallocator = "=0.5.4"
log = "=0.4.34"
pingora = { version = "=0.1.1", features = ["proxy"] }
pingora-openssl = "=0.1.1"
pretty_env_logger = "=0.5.0"
structopt = "=0.3.26"

[dev-dependencies]
openssl = "=0.10.81"
