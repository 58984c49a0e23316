[package]
name = "kata_runtime"
version = "0.1.0"
edition = "2021"
publish = false

[dependencies]
anyhow = "=1.0.104"
async-trait = "=0.1.92"
base64 = "=0.22.1"
blocking = "=1.7.0"
futures = "0.3"
go-flag = "=0.1.0"
libc = "=0.2.191"
nix = { version = "=0.26.4", features = ["fs", "mount", "sched", "process"] }
oci-spec = { version = "*", default-features = false, features = ["runtime"] }
rtnetlink = "*"
scopeguard = "=1.2.0"
sendfd = "=0.4.5"
serde = { version = "=1.0.229", features = ["derive"] }
serde_json = "=1.0.154"
signal-hook = "=0.3.18"
slog = "=2.8.2"
slog-scope = "=4.4.1"
thiserror = "=1.0.69"
tokio = { version = "=1.54.1", features = ["rt", "rt-multi-thread", "net", "io-util", "sync", "time", "macros", "fs", "process"] }
url = "=2.5.8"
uuid = { version = "=1.29.0", features = ["v4"] }
vmm-sys-util = "=0.12.1"
