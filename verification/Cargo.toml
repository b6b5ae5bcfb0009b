[package]
name = "uptitle"
version = "0.1.0"
edition = "2021"
publish = false

[dependencies]
argon2 = "0.5"
diesel = { version = "2", features = ["sqlite"] }
dotenv = "0.15"
reqwest = { version = "0.11", features = ["json"] }
rocket = { version = "0.5", features = ["json", "secrets"] }
rocket_sync_db_pools = { version = "0.1", features = ["diesel_sqlite_pool"] }
ytextract = "*"
