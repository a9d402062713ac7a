[package]
name = "keyroost"
version = "0.1.0"
edition = "2021"
publish = false

[dependencies]
clap = { version = "=4.6.7", features = ["derive"] }
clap_complete = "=4.6.11"
clap_mangen = "=0.2.33"
ecdsa = "=0.16.9"
p256 = { version = "=0.13.2", features = ["ecdsa"] }
p384 = { version = "=0.13.1", features = ["ecdsa"] }
serde = { version = "=1.0.229", features = ["derive"] }
serde_json = "=1.0.154"
sha1 = "=0.10.7"
sha2 = "=0.10.9"
signature = "=2.2.0"
ssh-agent-lib = "=0.6.0"
ssh-key = { version = "=0.6.7", features = ["ecdsa", "ed25519", "p256", "p384", "rsa"] }
tokio = { version = "=1.54.1", features = ["net", "rt-multi-thread"] }
tracing = "=0.1.44"
tracing-subscriber = { version = "=0.3.23", features = ["env-filter"] }
zeroize = "=1.9.1"
