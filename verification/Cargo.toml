[package]
name = "tracklib"
version = "0.1.0"
edition = "2021"
publish = false

[dependencies]
levenshtein = "*"
pathfinding = "*"
serde_json = "*"
serde = { version = "*", features = ["derive"] }
chrono = { version = "*", default-features = false, features = ["std"] }
strfmt = "*"
eyre = "*"
log = "*"
async-trait = "*"
const_format = "*"
infer = "*"
itertools = "*"
reqwest = { version = "*", default-features = false, features = ["json"] }
sqlx = { version = "*", default-features = false, features = ["sqlite", "runtime-tokio", "chrono"] }
tokio = { version = "*", features = ["rt", "macros"] }
