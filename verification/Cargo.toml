[package]
name = "vector_embed"
version = "0.1.0"
edition = "2021"
publish = false

[dependencies]
text-splitter = { version = "=0.33.0", features = ["code"] }
tree-sitter-rust = "=0.24.2"
tree-sitter-python = "=0.25.0"
tree-sitter-cpp = "=0.23.4"
tree-sitter-java = "=0.23.5"
tree-sitter-javascript = "=0.25.0"
tree-sitter-typescript = "=0.23.2"
tree-sitter-c = "=0.24.2"
tree-sitter-go = "=0.25.0"
tree-sitter-scala = "=0.26.3"
chrono = "=0.4.45"
serde_json = "=1.0.154"
serde = { version = "=1.0.229", features = ["derive"] }
anyhow = "=1.0.104"
log = "=0.4.34"
env_logger = "=0.11.11"
clap = { version = "=4.6.7", features = ["derive"] }
tokio = { version = "=1.54.1", features = ["full"] }
hyper = "=1.12.0"
hyper-util = { version = "=0.1.21", features = ["client-legacy", "http1", "tokio"] }
hyper-rustls = { version = "=0.27.10", default-features = false, features = ["http1", "native-tokio", "ring", "tls12"] }
http = "=1.5.0"
http-body-util = "=0.1.5"
rustls = { version = "=0.23.46", default-features = false, features = ["ring", "std", "tls12"] }
bytes = "=1.12.1"
futures = "=0.3.34"
arrow-array = "=60.0.0"
arrow-schema = "=60.0.0"
postgres = "*"
pgvector = { version = "*", features = ["postgres"] }
