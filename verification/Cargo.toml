[package]
name = "amdsev"
version = "0.1.0"
edition = "2021"
publish = false

[dependencies]
codicon = "=3.0.0"
curl = "=0.4.51"
kbs-types = { version = "=0.1.0", features = ["tee-sev"] }
kvm-bindings = "=0.14.2"
kvm-ioctls = "=0.25.1"
procfs = "=0.12.0"
serde = { version = "=1.0.229", features = ["derive"] }
serde_json = "=1.0.154"
sev = { version = "=0.3.0", features = ["openssl"] }
vm-memory = { version = "=0.18.0", features = ["backend-mmap"] }
