[package]
name = "dusty_shelf"
version = "0.1.0"
edition = "2021"
publish = false

[dependencies]
jsonwebtoken = "8"
serde_json = "1"
serde = { version = "1", features = ["derive"] }
rocket = { version = "0.5", features = ["json"] }
rocket_okapi = { version = "0.9", features = ["swagger", "rapidoc"] }
okapi = "0.7"
schemars = "0.8"
rocket_sync_db_pools = { version = "0.1", features = ["diesel_postgres_pool"] }
diesel = { version = "2", features = ["postgres", "r2d2"] }
diesel_migrations = "2"
r2d2 = "0.8"
dotenv = "0.15"
log = "0.4"
lazy_static = "1"
yansi = "1"
