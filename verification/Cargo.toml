[package]
name = "support_case"
version = "0.1.0"
edition = "2021"
publish = false

[dependencies]
futures = "=0.3.34"
lenso = "=0.5.30"
lenso-auth-sdk = "=0.2.3"
lenso-capability-access-control = "=0.2.0"
lenso-capability-agent-tool-provider = "=0.3.0"
lenso-capability-data-export-source = "=0.2.0"
lenso-capability-organization-membership = "=0.2.0"
lenso-capability-retention-participant = "=0.2.0"
lenso-capability-secrets = "=0.1.4"
lenso-kernel = "=0.3.13"
lenso-postgres-kit = "=0.1.1"
serde = { version = "=1.0.229", features = ["derive"] }
serde_json = "=1.0.154"
sha2 = "=0.10.9"
sqlx = { version = "=0.9.0", default-features = false, features = ["postgres", "runtime-tokio", "uuid", "time", "json"] }
thiserror = "=2.0.21"
time = { version = "=0.3.55", features = ["formatting", "parsing", "serde", "macros"] }
uuid = { version = "=1.29.0", features = ["v4", "serde"] }
zeroize = "=1.9.1"
