[package]
name = "cucumber_junit"
version = "0.1.0"
edition = "2021"
publish = false

[dependencies]
async-trait = "0.1"
clap = { version = "3", features = ["derive"] }
gherkin = "0.12"
junit-report = "0.7"
