[package]
name = "nrclue"
version = "0.1.0"
edition = "2021"
publish = false

[dependencies]
crossterm = "0.25"
gql_client = "1"
serde = { version = "1", features = ["derive"] }
serde_json = { version = "1", features = ["preserve_order"] }
thiserror = "1"
tokio = { version = "1", features = ["macros", "rt-multi-thread"] }
tui = "0.19"
