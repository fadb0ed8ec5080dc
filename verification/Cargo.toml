[package]
name = "tsql_diagram"
version = "0.1.0"
edition = "2021"
publish = false

[dependencies]
clap = "4"
serde = { version = "1", features = ["derive"] }
sqlx = { version = "0.6", features = ["runtime-tokio-native-tls", "mssql"] }
tokio = { version = "1", features = ["macros", "rt-multi-thread"] }
