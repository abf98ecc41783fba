[package]
name = "cio"
version = "0.1.0"
edition = "2021"
publish = false

[dependencies]
airtable-api = "=0.1.36"
async-trait = "=0.1.92"
chrono = { version = "=0.4.45", features = ["serde"] }
chrono-humanize = "=0.2.3"
csv = "=1.4.0"
google-drive = "0.1"
gsuite-api = "0.1"
hubcaps = "=0.6.2"
phonenumber = "=0.3.10"
regex = "=1.13.1"
schemars = { version = "=0.8.22", features = ["chrono"] }
serde = { version = "=1.0.229", features = ["derive"] }
serde_json = "=1.0.154"
tracing = "=0.1.44"
