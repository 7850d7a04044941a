[package]
name = "fact_cli"
version = "0.1.0"
edition = "2021"
publish = false

[dependencies]
rand = "=0.8.8"
clap = { version = "=4.6.7", features = ["derive"] }
colored = "=3.1.1"
dotenv = "=0.15.0"
reqwest = { version = "=0.12.28", default-features = false, features = ["json"] }
serde = { version = "=1.0.229", features = ["derive"] }
takecell = "=0.1.1"
teloxide = { version = "=0.12.2", default-features = false }
tokio = { version = "=1.53.2", features = ["macros", "rt-multi-thread", "time"] }
