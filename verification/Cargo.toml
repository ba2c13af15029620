[package]
name = "memory_mcp"
version = "0.1.0"
edition = "2021"
publish = false

[dependencies]
blake3 = "1"
tree-sitter = "*"
tree-sitter-rust = "*"
tree-sitter-python = "*"
tree-sitter-typescript = "*"
tree-sitter-javascript = "*"
tree-sitter-go = "*"
tree-sitter-java = "*"
streaming-iterator = "0.1"
lru = "*"
petgraph = "*"
serde = { version = "1", features = ["derive"] }
serde_json = "1"
anyhow = "1"
tokio = { version = "1", features = ["full"] }
tracing = "0.1"
tracing-subscriber = { version = "0.3", features = ["env-filter"] }
clap = { version = "4", features = ["derive", "env"] }
dirs = "*"
ignore = "0.4"
notify = "*"
libc = "0.2"
chrono = { version = "0.4", features = ["serde"] }
redb = "*"
moka = { version = "*", features = ["future"] }
bincode = { version = "2", features = ["serde"] }
