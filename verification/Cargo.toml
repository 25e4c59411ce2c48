[package]
name = "tunrelay"
version = "0.1.0"
edition = "2021"
publish = false

[dependencies]
ctrlc2 = { version = "=4.0.0", features = ["async"] }
ipstack = "=1.0.1"
libc = "=0.2.191"
net-route = "=0.4.6"
socket2 = { version = "=0.6.5", features = ["all"] }
tokio = { version = "=1.54.1", features = ["full"] }
tun2 = { version = "=4.0.0", features = ["async"] }
windows = { version = "0.58", features = ["Win32_Networking_WinSock"] }
