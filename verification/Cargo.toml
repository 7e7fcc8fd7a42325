[package]
name = "box_dyn_dns"
version = "0.1.0"
edition = "2021"
publish = false

[dependencies]
attohttpc = { version = "*", features = ["json"] }
color-eyre = "*"
log = "0.4"
serde = { version = "1", features = ["derive"] }
serde_json = "1"
serde_yaml = "*"
stderrlog = "*"
structopt = "0.3"
trust-dns-resolver = "*"
