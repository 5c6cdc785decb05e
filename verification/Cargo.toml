[package]
name = "runaway_train"
version = "0.1.0"
edition = "2021"
publish = false

[dependencies]
rand = { version = "0.8", default-features = false, features = ["small_rng"] }
num-traits = { version = "0.2", default-features = false, features = ["libm"] }
playdate = "*"
crankit-game-loop = "*"
