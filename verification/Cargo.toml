[package]
name = "todo_auth"
version = "0.1.0"
edition = "2021"
publish = false

[dependencies]
rust-argon2 = "=1.0.1"
rand = "=0.8.8"
time = { version = "=0.3.55", features = ["formatting", "parsing"] }
hmac = "=0.12.1"
sha2 = "=0.10.9"
jwt = "=0.16.0"
serde = { version = "=1.0.229", features = ["derive"] }
serde_json = "=1.0.151"
reqwest = { version = "=0.11.27", default-features = false, features = ["blocking"] }
url = "=2.5.8"
clap = { version = "=3.2.25", features = ["derive"] }
rpassword = "=7.5.4"
dirs-2 = "=3.0.1"
crossterm = "=0.25.0"
tui = { version = "=0.19.0", default-features = false, features = ["crossterm"] }
mysql = { version = "=28.0.3", default-features = false, features = ["minimal-rust"] }
warp = { version = "=0.3.7", default-features = false }
tokio = { version = "=1.53.2", features = ["macros", "rt-multi-thread"] }
log = "=0.4.34"
simplelog = "=0.12.2"
