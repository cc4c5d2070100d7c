[package]
name = "saysthbot"
version = "0.1.0"
edition = "2021"
publish = false

[dependencies]
strfmt = "=0.1.6"
teloxide = { version = "=0.9.2", default-features = false, features = ["macros", "rustls"] }
sea-orm = { version = "=0.8.0", default-features = false, features = ["macros", "sqlx-sqlite", "runtime-tokio-rustls"] }
sea-orm-migration = "=0.8.3"
async-trait = "=0.1.92"
clap = { version = "=3.2.25", features = ["derive", "env"] }
tokio = { version = "=1.54.1", features = ["macros", "rt-multi-thread"] }
wd_log = "=0.4.0"
# Nothing here calls takecell. teloxide-core needs it, and it is held at the last patch that
# builds with Rust 1.95: 0.1.2 asks for a newer compiler.
takecell = "=0.1.1"
