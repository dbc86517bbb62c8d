[package]
name = "simprox"
version = "0.1.0"
edition = "2021"
publish = false

[dependencies]
warp = "0.3"
tokio = { version = "1", features = ["macros", "rt-multi-thread"] }
hyper-tls = "0.5"
clap = { version = "4", features = ["env"] }
fern = "0.7"
log = "0.4"
chrono = "0.4"
ctrlc = "3"
