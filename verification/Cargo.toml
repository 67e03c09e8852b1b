[package]
name = "starfish"
version = "0.1.0"
edition = "2021"
publish = false

[dependencies]
sha1 = "=0.11.0"
base16ct = { version = "=1.0.0", features = ["alloc"] }
sqlx = { version = "=0.9.0", features = ["postgres", "runtime-tokio"] }
tokio = { version = "=1.53.2", features = ["rt-multi-thread", "macros"] }
tempfile = "=3.27.0"
nix = { version = "=0.31.3", features = ["fs"] }
inotify = "=0.11.5"
anyhow = "=1.0.104"
toml = "*"
