[package]
name = "mensa_bot"
version = "0.1.0"
edition = "2021"
publish = false

[dependencies]
chrono = "*"
clap = { version = "*", features = ["derive"] }
dotenv = "*"
futures = "*"
poise = "*"
reqwest = { version = "*", default-features = false, features = ["json"] }
serde = { version = "*", features = ["derive"] }
serde_json = "*"
serenity = "*"
shellexpand = "*"
tabled = "*"
tokio = { version = "*", features = ["macros", "rt-multi-thread"] }
toml = "*"
