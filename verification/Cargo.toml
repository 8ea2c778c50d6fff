[package]
name = "grafq"
version = "0.1.0"
edition = "2021"
publish = false

[dependencies]
anyhow = "=1.0.104"
aws-config = "=1.13.0"
aws-sdk-neptunedata = "=1.119.0"
aws-smithy-types = "=1.9.0"
chrono = "=0.4.45"
clap = { version = "=4.6.7", features = ["derive"] }
colored = "=3.1.1"
csv = "=1.4.0"
etcetera = "=0.11.0"
neo4rs = "=0.8.0"
rustyline = "=19.0.0"
serde_json = "=1.0.154"
shlex = "=1.3.0"
tabled = "=0.22.0"
tempfile = "=3.27.0"
thiserror = "=2.0.21"
tokio = { version = "=1.54.1", features = ["rt-multi-thread", "macros", "signal", "fs", "time"] }
tracing-subscriber = { version = "=0.3.23", features = ["env-filter"] }
which = "=8.0.6"
