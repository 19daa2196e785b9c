[package]
name = "rick"
version = "0.1.0"
edition = "2021"
publish = false

[dependencies]
serde_json = "1"
argparse = "0.2"
colored = "2"
text_io = "0.1"
