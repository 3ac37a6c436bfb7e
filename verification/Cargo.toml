[package]
name = "collaboard"
version = "0.1.0"
edition = "2021"
publish = false

[dependencies]
serde = { version = "1", features = ["derive"] }
serde_json = "1"
sha3 = "0.10"
validator = { version = "0.16", features = ["derive"] }
chrono = { version = "0.4", features = ["serde"] }
uuid = { version = "1", features = ["v4"] }
rand = "0.8"
jsonwebtoken = "9"
axum = { version = "0.7", features = ["ws"] }
axum-extra = { version = "0.9", features = ["typed-header"] }
tokio = { version = "1", features = ["full"] }
tower-http = { version = "0.5", features = ["cors", "fs"] }
http = "1"
diesel = { version = "2.1", features = ["postgres", "r2d2", "chrono"] }
dotenv = "0.15"
lazy_static = "1.4"
lettre = { version = "0.11", default-features = false, features = ["smtp-transport", "builder", "rustls-tls"] }
futures = "0.3"
async-trait = "0.1"
strum_macros = "0.25"
yew = { version = "0.21", features = ["csr"] }
yew-router = "0.18"
yewdux = "0.10"
gloo = "0.11"
reqwasm = "0.5"
wasm-bindgen = "0.2"
wasm-bindgen-futures = "0.4"
web-sys = { version = "0.3", features = ["HtmlInputElement", "Window", "Location", "Event", "MouseEvent"] }
