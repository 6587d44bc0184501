[package]
name = "good_game_rusty_pong"
version = "0.1.0"
edition = "2021"
publish = false

[dependencies]
macroquad = "=0.3.26"
ggrs = "=0.11.1"
matchbox_socket = { version = "0.14", features = ["ggrs"] }
async-executor = "=1.14.0"
instant = "=0.1.13"
serde = { version = "1", features = ["derive"] }
