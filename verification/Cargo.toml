[package]
name = "svcupdate"
version = "0.1.0"
edition = "2021"
publish = false

[dependencies]
duct = "*"
eventlog = "*"
figment = "*"
figment-winreg = "*"
log = "*"
qargparser = "*"
serde = { version = "1", features = ["derive"] }
windows-service = "*"
winreg = "*"
