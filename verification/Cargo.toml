[package]
name = "mygit"
version = "0.1.0"
edition = "2021"
publish = false

[dependencies]
git2 = { version = "*", default-features = false }
percent-encoding = "*"
pulldown-cmark = "*"
syntect = { version = "*", default-features = false, features = ["default-fancy"] }
chrono = { version = "*", default-features = false, features = ["std", "alloc"] }
http-types = "*"
tide = "*"
async-std = { version = "*", features = ["attributes"] }
async-trait = "*"
serde = { version = "*", features = ["derive"] }
toml = "*"
pico-args = "*"
once_cell = "*"
