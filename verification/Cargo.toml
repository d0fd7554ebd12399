[package]
name = "gswr"
version = "0.1.0"
edition = "2021"
publish = false

[dependencies]
chrono = "0.4"
crossterm = "0.29"
git2 = "0.20"
ratatui = "0.30"
serde = { version = "1", features = ["derive"] }
throbber-widgets-tui = "*"
ureq = { version = "2", features = ["json"] }
