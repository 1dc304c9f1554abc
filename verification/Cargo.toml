[package]
name = "frp_operator"
version = "0.1.0"
edition = "2021"
publish = false

[dependencies]
blake3 = { version = "*", features = ["pure"] }
itertools = "*"
kube = { version = "*", features = ["runtime", "derive"] }
k8s-openapi = { version = "*", features = ["latest"] }
serde = { version = "*", features = ["derive"] }
serde_yaml = "*"
schemars = "*"
toml = "*"
log = "*"
simplelog = "*"
tokio = { version = "*", features = ["macros", "rt-multi-thread"] }
futures-util = "*"
thiserror = "*"
