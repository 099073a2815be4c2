[package]
name = "assistant_relay"
version = "0.1.0"
edition = "2021"
publish = false

[dependencies]
async-openai = { version = "=0.28.3", default-features = false, features = ["native-tls"] }
dapr = "=0.19.0"
flowsnet-platform-sdk = "=0.1.6"
log = "=0.4.34"
serde_json = "=1.0.151"
takecell = "=0.1.1"
tg-flows = "=0.4.0"
tokio = { version = "=1.53.2", features = ["macros", "rt", "time"] }
