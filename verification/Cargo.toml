[package]
name = "evtdecode"
version = "0.1.0"
edition = "2021"
publish = false

[dependencies]
windows-sys = { version = "*", features = ["Win32_System_EventLog", "Win32_Foundation", "Win32_Security"] }
windows-result = "*"
windows-strings = "*"

[dev-dependencies]
chrono = "*"
