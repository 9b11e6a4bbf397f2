[package]
name = "durl"
version = "0.1.0"
edition = "2021"
publish = false

[dependencies]
url = "*"
tokio = { version = "*", features = ["full"] }
reqwest = { version = "*", default-features = false, features = ["stream"] }
futures-util = "*"
aqueue = "*"
log = "*"
env_logger = "*"
structopt = "*"
thiserror = "*"
async-trait = "*"
slab = "*"
interoptopus = "*"
