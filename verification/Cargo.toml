[package]
name = "rusty_bedrock_lib"
version = "0.1.0"
edition = "2021"
publish = false

[dependencies]
aws-config = { version = "1", features = ["behavior-version-latest"] }
aws-sdk-bedrock = "1"
aws-sdk-bedrockruntime = "1"
aws-smithy-types = "1"
base64 = "0.22"
clap = { version = "4", features = ["derive"] }
log = "0.4"
serde = { version = "1", features = ["derive"] }
serde_json = "1"
shellexpand = "3"
shellfish = { version = "*", features = ["rustyline", "async", "tokio", "clap"] }
stderrlog = "0.6"
tokio = { version = "1", features = ["full"] }
