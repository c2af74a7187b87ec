[package]
name = "arta"
version = "0.1.0"
edition = "2021"
publish = false

[dependencies]
bytesize = "1"
chrono = "0.4"
regex = "1"
clap = { version = "4", features = ["derive"] }
ctrlc = "3"
rustyline = "14"
serde = { version = "1", features = ["derive"] }
serde_json = "1"
sysinfo = "0.30"
thiserror = "1"
battery = "0.7"

[dev-dependencies]
tempfile = "3"
