[package]
name = "nu_plugin_nnm"
version = "0.1.0"
edition = "2021"
publish = false

[dependencies]
futures = "=0.3.34"
nu-plugin = { version = "=0.112.2", default-features = false }
nu-protocol = { version = "=0.112.2", default-features = false }
rgb = "=0.8.53"
rusty_network_manager = "=0.7.1"
smart-default = "=0.7.1"
textplots = "=0.8.7"
tokio = { version = "=1.54.1", features = ["rt-multi-thread", "net"] }
zbus = "=5.19.0"
