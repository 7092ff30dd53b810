[package]
name = "site_builder"
version = "0.1.0"
edition = "2021"
publish = false
rust-version = "1.95"

[dependencies]
actix-files = "0.6"
actix-web = { version = "4", default-features = false, features = ["macros", "compress-gzip", "rustls-0_23"] }
ammonia = "=4.2.4"
clap = { version = "4", features = ["derive"] }
comrak = { version = "=0.18.0", default-features = false }
exitcode = "1"
extract-frontmatter = "=2.1.0"
flexi_logger = "0.29"
fs_extra = "1"
futures = "0.3"
grass = { version = "=0.13.4", default-features = false }
kstring = "=2.0.2"
liquid = "=0.26.11"
log = "0.4"
mimalloc = "0.1"
rayon = "1"
rustls = { version = "0.23", default-features = false, features = ["ring", "std", "logging", "tls12"] }
rustls-pemfile = "2"
serde = { version = "1", features = ["derive"] }
toml = "=0.5.11"
