[package]
name = "mkautoripper"
version = "0.1.0"
edition = "2021"
publish = false

[dependencies]
bytesize = "*"
serde_json = "1"
rppal = "*"
ads1x1x = "0.3"
linux-embedded-hal = "0.4"
nb = "1"
sqlite = "*"
sys-info = "0.9"
sysinfo = "0.30"
tokio = { version = "1", features = ["rt-multi-thread", "macros", "time", "sync"] }
fltk = "1"
fltk-table = "0.3"
