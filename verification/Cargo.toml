[package]
name = "bdo_enhancement_profit_calculator"
version = "0.1.0"
edition = "2021"
publish = false

[dependencies]
serde_json = "=1.0.151"
rand = "=0.10.3"
reqwest = { version = "=0.13.5", default-features = false, features = ["blocking", "form", "json"] }
