[package]
name = "ib_everything_ext"
version = "0.1.0"
edition = "2021"
publish = false

[dependencies]
ib-matcher = { version = "=0.4.5", features = ["pinyin", "romaji"] }
everything-plugin = "=0.4.1"
serde = { version = "=1.0.229", features = ["derive"] }
serde_json = "=1.0.154"
serde_yaml_ng = "*"
