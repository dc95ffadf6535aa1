[package]
name = "p2p_chat"
version = "0.1.0"
edition = "2021"
publish = false

[dependencies]
reqwest = { version = "*", default-features = false, features = ["blocking"] }
actix-web = { version = "*", default-features = false, features = ["macros"] }
crossterm = "*"
ratatui = "*"
