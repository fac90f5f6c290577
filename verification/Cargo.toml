[package]
name = "netmount"
version = "0.1.0"
edition = "2021"
publish = false

[dependencies]
anyhow = "1"
futures-util = "0.3"
lazy_static = "1"
nix = { version = "0.29", features = ["signal"] }
rand = "0.8"
reqwest = { version = "0.12", default-features = false, features = ["rustls-tls", "stream"] }
serde_json = "1"
tokio = { version = "1", features = ["full"] }
widestring = "1"
winapi = { version = "0.3", features = ["handleapi", "jobapi2", "minwindef", "processthreadsapi", "winnt"] }
winreg = "0.52"
zip = { version = "2", default-features = false, features = ["deflate"] }
