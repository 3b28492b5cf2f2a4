[package]
name = "hasura_graphql_client"
version = "0.1.0"
edition = "2021"
publish = false

[dependencies]
reqwest = { version = "*", default-features = false }
secrecy = "0.8"
serde = "*"
serde_json = "*"
zeroize = "*"
