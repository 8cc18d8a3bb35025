[package]
name = "rest_api"
version = "0.1.0"
edition = "2021"
publish = false

[dependencies]
actix = { version = "=0.8.3", default-features = false }
actix-http = "=0.2.11"
actix-web = { version = "=1.0.9", default-features = false }
# Not used by this crate itself. It is held at this release for actix-http,
# whose cookies subtract a `chrono::Duration` from a `time::Tm`: in later
# releases of chrono the duration is a type of its own and that does not compile.
chrono = "=0.4.19"
futures = "=0.1.31"
log = "=0.4.34"
