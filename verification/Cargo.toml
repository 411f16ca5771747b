[package]
name = "mxf"
version = "0.1.0"
edition = "2021"
publish = false

[dependencies]
chrono = { version = "=0.4.45", features = ["serde"] }
mini-moka = "=0.10.3"
rocket = { version = "=0.5.2", features = ["json", "secrets"] }
rocket_dyn_templates = { version = "=0.2.0", features = ["tera"] }
sea-orm = { version = "=0.12.15", default-features = false, features = ["macros", "sqlx-mysql", "runtime-tokio-rustls", "with-chrono"] }
sea-orm-rocket = "=0.5.5"
serde = { version = "=1.0.229", features = ["derive"] }
jsonwebtoken = "=9.3.1"
