[package]
name = "tfc"
version = "0.1.0"
edition = "2021"
publish = false

[dependencies]
tokio = { version = "1", features = ["rt-multi-thread", "macros", "sync", "time"] }
zbus = "5"
zeromq = "*"
futures = "0.3"
futures-channel = "0.3"
serde = { version = "1", features = ["derive"] }
serde_json = "1"
schemars = "0.8"
clap = { version = "4", features = ["derive"] }
log = "0.4"
env_logger = "*"
systemd-journal-logger = "*"
lazy_static = "1"
ringbuf = "0.4"
quantities = "*"
ethercrab = "*"
ethercrab-wire = "*"
bitvec = "1"
async-trait = "*"
atomic_refcell = "*"
