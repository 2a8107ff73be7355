[package]
name = "netif"
version = "0.1.0"
edition = "2021"
publish = false

[dependencies]
libc = "=0.2.191"
nix = "=0.19.1"
thiserror = "=1.0.69"
eui48 = "=1.1.0"
ipnetwork = "=0.17.0"
bytes = "1"
futures = { version = "0.3", default-features = false, features = ["std", "executor"] }
parking_lot = "0.12"
winapi = { version = "0.3", features = ["ioapiset", "winioctl", "winnt", "minwindef"] }
winreg = "*"
ipconfig = "*"
