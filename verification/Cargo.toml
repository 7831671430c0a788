[package]
name = "osu_pp_calc"
version = "0.1.0"
edition = "2021"
publish = false

[dependencies]
ctrlc = "=3.5.2"
handlebars = "1"
reqwest = "=0.9.24"
rocket = "=0.4.11"
rocket_contrib = { version = "=0.4.11", features = ["handlebars_templates"] }
serde = { version = "=1.0.229", features = ["derive"] }
serde_derive = "=1.0.229"
serde_json = "=1.0.154"
