[package]
name = "query_menu"
version = "0.1.0"
edition = "2021"
publish = false

[dependencies]
serde_json = "*"
html2text = "*"
reqwest = { version = "*", default-features = false, features = ["blocking"] }
bpaf = { version = "*", features = ["derive"] }
colored = "*"
termion = "*"
rpassword = "*"
