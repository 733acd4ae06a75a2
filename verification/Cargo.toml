[package]
name = "ascope"
version = "0.1.0"
edition = "2021"
publish = false

[dependencies]
nucleo = "0.5"
serde_json = "1"
base64 = "0.22"
serde = { version = "1", features = ["derive"] }
toml = "0.8"
ratatui = "0.28"
crossterm = "0.28"
ansi-to-tui = "6"
mlua = { version = "0.9", features = ["lua54", "vendored"] }
git2 = { version = "0.19", default-features = false }
bat = { version = "0.24", default-features = false, features = ["regex-fancy"] }
image = { version = "0.25", default-features = false, features = ["png", "jpeg", "gif", "bmp", "webp", "ico"] }
jwalk = "0.8"
once_cell = "1"
open = "5"
arboard = { version = "3", default-features = false }
chrono = "0.4"
clap = { version = "4", features = ["derive"] }

[dev-dependencies]
tempfile = "3"
