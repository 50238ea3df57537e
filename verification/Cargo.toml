[package]
name = "pycavalry"
version = "0.1.0"
edition = "2021"
publish = false

[dependencies]
ariadne = "=0.4.1"
clap = { version = "=4.6.7", features = ["derive"] }
clio = { version = "=0.3.5", features = ["clap-parse"] }
gc = { version = "=0.5.1", features = ["derive"] }
get-size2 = "=0.10.1"
ruff_python_ast = "=0.0.5"
ruff_python_parser = "=0.0.5"
ruff_text_size = "=0.0.5"

[dev-dependencies]
indoc = "=2.0.8"
