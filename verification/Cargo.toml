[package]
name = "dot_graph"
version = "0.1.0"
edition = "2021"
publish = false

[dependencies]
petgraph = "*"
serde = { version = "1", features = ["derive"] }
serde_json = "1"
geo = { version = "*", features = ["use-serde"] }
rayon = "*"
dioxus = { version = "*", default-features = false, features = ["macro", "html", "hooks", "signals"] }
