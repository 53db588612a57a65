[package]
name = "pagealloc"
version = "0.1.0"
edition = "2021"
publish = false

[dependencies]
libc = "=0.2.191"
errno = "=0.3.14"
windows-sys = { version = "=0.61.2", features = ["Win32_Foundation", "Win32_System_Memory", "Win32_System_SystemInformation"] }
