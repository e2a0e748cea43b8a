[package]
name = "semantic_core"
version = "0.1.0"
edition = "2021"
publish = false

[dependencies]
actix-web = { version = "=4.18.1", default-features = false, features = ["macros"] }
async-trait = "=0.1.92"
clap = { version = "=4.6.7", features = ["derive"] }
config = { version = "=0.15.27", default-features = false, features = ["yaml"] }
datafusion = { version = "=55.2.0", default-features = false, features = ["parquet"] }
serde = { version = "=1.0.229", features = ["derive"] }
serde_yaml = "=0.9.34"
thiserror = "=2.0.21"
tokio = { version = "=1.54.1", features = ["macros", "rt-multi-thread", "signal", "fs"] }
tracing = "=0.1.44"
tracing-actix-web = { version = "=0.7.25", default-features = false }
tracing-log = "=0.2.0"
tracing-subscriber = { version = "=0.3.23", features = ["env-filter", "fmt"] }

[dev-dependencies]
tempfile = "=3.27.0"
