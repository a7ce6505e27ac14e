[package]
name = "starmap"
version = "0.1.0"
edition = "2021"
publish = false

[dependencies]
rand = { version = "0.8.5", features = ["small_rng"] }
rand_distr = "0.4.3"
relm4 = "0.7"
gtk4 = { version = "0.7", features = ["v4_10"] }
pangocairo = "0.18"
