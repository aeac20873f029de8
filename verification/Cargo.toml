[package]
name = "lp_solver"
version = "0.1.1"
edition = "2021"
publish = false

[dependencies]
grb = { version = "=3.0.1", features = ["gurobi12"] }
coin_cbc = "=0.1.9"
