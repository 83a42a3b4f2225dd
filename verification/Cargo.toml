[package]
name = "twitch_tui"
version = "0.1.0"
edition = "2021"
publish = false

[dependencies]
irc = { version = "*", default-features = false, features = ["ctcp", "toml_config"] }
tokio = { version = "*", features = ["rt-multi-thread", "macros", "sync"] }
tokio-util = "*"
crossterm = { version = "*", features = ["event-stream"] }
ratatui = "*"
futures = "*"
dotenv = "*"
textwrap = "*"
