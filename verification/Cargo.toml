[package]
name = "haku"
version = "0.1.0"
edition = "2021"
publish = false

[dependencies]
actix-cors = "*"
actix-web = "*"
lapin = "*"
reqwest = { version = "*", features = ["json"] }
sendinblue = "*"
serde = { version = "*", features = ["derive"] }
serde_json = "*"
