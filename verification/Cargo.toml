[package]
name = "daemon_slayer"
version = "0.1.0"
edition = "2021"
publish = false

[dependencies]
ipnet = "2"
sysinfo = "0.29"
if-addrs = "0.10"
net-route = "0.2"
gethostname = "0.4"
mdns-sd = "0.9"
clap = { version = "4", features = ["derive"] }
serde = { version = "1", features = ["derive"] }
serde_json = "1"
tokio = { version = "1", features = ["rt", "sync", "time", "macros"] }
chrono = "0.4"
bytesize = "1"
num_cpus = "1"
native-dialog = "0.9"
notify-rust = "4"
signal-hook = "0.3"
