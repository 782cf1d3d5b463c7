[package]
name = "gdk"
version = "0.1.0"
edition = "2021"
publish = false

[dependencies]
uuid = { version = "*", features = ["v4"] }
dashmap = "*"
num_cpus = "*"
rayon = "*"
git2 = "*"
tokio = { version = "*", features = ["full"] }
clap = { version = "*", features = ["derive"] }
anyhow = "*"
thiserror = "*"
serde = { version = "*", features = ["derive"] }
serde_json = "*"
chrono = "*"
colored = "*"
petgraph = "*"
async-trait = "*"
parking_lot = "*"
