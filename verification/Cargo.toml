[package]
name = "rustadmin"
version = "0.1.0"
edition = "2021"
publish = false

[dependencies]
bcrypt = "*"
serde_json = "1"
serde = { version = "1", features = ["derive"] }
rocket = { version = "0.5", features = ["json"] }
rocket_dyn_templates = { version = "0.2", features = ["tera"] }
sea-orm = { version = "1", default-features = false, features = ["macros"] }
sea-orm-migration = { version = "1", default-features = false }
dotenvy = "0.15"
async-trait = "0.1"
