[package]
name = "manga-tui"
version = "0.5.0"
edition = "2021"
publish = false

[dependencies]
crossterm = "=0.28.1"
image = { version = "=0.25.10", default-features = false, features = ["jpeg", "png"] }
once_cell = "=1.21.4"
ratatui = "=0.28.1"
ratatui-image = "=2.0.1"
reqwest = { version = "=0.12.28", default-features = false, features = ["json", "rustls-tls"] }
serde = { version = "1", features = ["derive"] }
tokio = { version = "=1.54.1", features = ["macros", "rt-multi-thread", "sync", "time"] }
tui-widget-list = "=0.12.2"
