[package]
name = "git_sre_agents"
version = "0.1.0"
edition = "2021"
publish = false

[dependencies]
serde = { version = "1", features = ["derive"] }
serde_json = "1"
dotenvy = "0.15"
tokio = { version = "1", features = ["macros", "rt-multi-thread", "process", "sync"] }
reqwest = { version = "0.12", default-features = false, features = ["json"] }
async-trait = "0.1"
thiserror = "2"
anyhow = "1"
