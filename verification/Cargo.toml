[package]
name = "netbox_controller"
version = "0.1.0"
edition = "2021"
publish = false

[dependencies]
tracing = "*"
serde_json = "*"
kube = { version = "*", default-features = false, features = ["client"] }
k8s-openapi = { version = "*", features = ["latest"] }
