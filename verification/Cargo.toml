[package]
name = "mind"
version = "0.1.0"
edition = "2021"
publish = false

[dependencies]
getrandom = "=0.3.4"
tokio = { version = "=1.54.1", features = ["net", "io-util", "rt", "macros"] }
kameo = "=0.22.2"
nota = "*"
rkyv = "0.8"
