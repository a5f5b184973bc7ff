[package]
name = "rusty-rays-core"
version = "0.1.0"
edition = "2021"
publish = false

[dependencies]
uuid = { version = "*", features = ["v4"] }
slog = "*"
slog-async = "*"
slog-term = "*"
chrono = "*"
serde = { version = "*", features = ["derive"] }
serde_json = "*"
dirs-next = "*"
num_cpus = "*"
image = { version = "*", default-features = false, features = ["bmp", "png"] }
clap = { version = "*", features = ["derive"] }
ctrlc = "*"
signal-hook = "*"
once_cell = "*"
