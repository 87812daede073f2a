[package]
name = "datanode_client"
version = "0.1.0"
edition = "2021"
publish = false

[dependencies]
bson = "2"
leptos = { version = "0.4", features = ["csr"] }
leptos_router = { version = "0.4", features = ["csr"] }
reqwest = { version = "0.11", default-features = false, features = ["json"] }
serde = { version = "1", features = ["derive"] }
serde_json = "1"
