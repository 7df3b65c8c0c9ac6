[package]
name = "polars_deser_row"
version = "0.1.0"
edition = "2021"
publish = false

[dependencies]
polars = { version = "=0.40.0", default-features = false, features = ["dtype-full", "object", "rows"] }
# polars-core 0.40 calls hashbrown's raw table API but does not switch the
# feature on itself; nothing else in the dependency tree does so any more.
hashbrown = { version = "=0.14.5", features = ["raw"] }
serde = { version = "=1.0.229", features = ["derive"] }
