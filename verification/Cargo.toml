[package]
name = "lesson_solver"
version = "0.1.0"
edition = "2021"
publish = false

[dependencies]
whatlang = "*"
regex = "*"
lingual = "*"
thirtyfour = "*"
tokio = { version = "*", features = ["rt-multi-thread", "macros", "time"] }
futures = "*"
serde = { version = "*", features = ["derive"] }
serde_json = "*"
