[package]
name = "make_shell"
version = "0.1.0"
edition = "2021"
publish = false

[dependencies]
toml = "=1.1.7"
anyhow = "=1.0.104"
bpaf = { version = "=0.9.28", features = ["derive"] }
xshell = "=0.2.7"
