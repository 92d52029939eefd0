[package]
name = "vhost_user"
version = "0.1.0"
edition = "2021"
publish = false

[dependencies]
libc = "0.2"
log = "0.4"
uds_windows = "*"
vm-memory = { version = "*", features = ["backend-mmap", "backend-atomic"] }
vmm-sys-util = "*"
windows-sys = { version = "*", features = ["Win32_Foundation", "Win32_System_Memory", "Win32_System_Threading"] }
