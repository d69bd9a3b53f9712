[package]
name = "todo_htmx"
version = "0.1.0"
edition = "2021"
publish = false

[dependencies]
http = "1"
axum = "0.7"
chrono = "0.4"
color-eyre = "0.6"
dotenvy = "0.15"
serde = { version = "1", features = ["derive"] }
sqlx = { version = "0.7", default-features = false, features = ["runtime-tokio", "postgres", "chrono", "macros"] }
tokio = { version = "1", features = ["full"] }
tower = { version = "0.4", features = ["util"] }
tower-http = { version = "0.5", features = ["fs"] }
tracing = "0.1"
