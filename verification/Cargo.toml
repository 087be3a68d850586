[package]
name = "qubit-executor"
version = "0.8.0"
edition = "2021"
publish = false

[dependencies]
log = "=0.4.35"
parking_lot = "=0.12.5"
qubit-atomic = "=0.17.6"
qubit-collections = "=0.2.3"
qubit-function = "=0.18.3"
qubit-lock = { version = "=0.14.4", features = ["monitor", "parking-lot"] }
thiserror = "=2.0.21"
