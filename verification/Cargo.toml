[package]
name = "devnet_observer"
version = "0.1.0"
edition = "2021"
publish = false

[dependencies]
base58 = "=0.2.0"
clarity-repl = { version = "=0.33.2", default-features = false, features = ["cli"] }
# clarity-repl 0.33 reaches into `regex::internal`, which regex 1.9 took away.
regex = "=1.8.4"
reqwest = { version = "=0.11.27", default-features = false, features = ["blocking", "json"] }
# The derives of the wire types in app/.
serde = { version = "=1.0.229", features = ["derive"] }
serde_json = "=1.0.154"
