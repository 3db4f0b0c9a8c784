[package]
name = "ag45_bot"
version = "0.1.0"
edition = "2021"
publish = false

[dependencies]
soup = "=0.5.1"
dotenv = "=0.15.0"
log = "=0.4.34"
reqwest = { version = "=0.12.28", default-features = false }
teloxide = { version = "=0.17.0", default-features = false }
takecell = "=0.1.1"
tokio = { version = "=1.53.2", features = ["macros", "rt-multi-thread", "time"] }
