[package]
name = "wiki_resource"
version = "0.1.0"
edition = "2021"
publish = false

[dependencies]
actix-web = { version = "4", default-features = false }
parse_wiki_text = "0.1"
reqwest = "0.12"
serde = { version = "1", features = ["derive"] }
serde_json = "1"
