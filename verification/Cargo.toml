[package]
name = "crankshaft-singularity"
version = "0.1.0"
edition = "2021"
publish = false

[dependencies]
clap = { version = "4", features = ["derive"] }
clap-verbosity-flag = "2"
eyre = "0.6"
indexmap = "2"
shlex = "1"
tokio = { version = "1", features = ["rt-multi-thread"] }
tracing-log = "0.2"
tracing-subscriber = { version = "0.3", features = ["env-filter"] }
