[package]
name = "serial_exchange"
version = "0.1.0"
edition = "2021"
publish = false

[dependencies]
clap = { version = "=3.2.25", default-features = false, features = ["std"] }
env_logger = { version = "=0.11.11", default-features = false }
log = "=0.4.34"
mio = { version = "=1.2.4", features = ["os-poll", "os-ext"] }
mio-serial = { version = "=5.0.7", default-features = false }
serialport = { version = "=4.10.1", default-features = false }
thiserror = "=1.0.69"
