[package]
name = "try_merge"
version = "0.1.0"
edition = "2021"
publish = false

[dependencies]
git2 = "*"
git2_credentials = "*"
globset = "*"
anyhow = "*"
thiserror = "*"
structopt = "*"
dirs = "*"
users = "*"
