[package]
name = "mili"
version = "0.1.0"
edition = "2021"
publish = false

[dependencies]
qrcodegen = "1.8"
qrcode-generator = "4"
image = { version = "0.24", default-features = false, features = ["png", "jpeg", "gif", "bmp", "ico"] }
nanoid = "0.4"
url = "2"
serde = { version = "1", features = ["derive"] }
axum = { version = "0.7", features = ["multipart"] }
askama = { version = "0.12", features = ["with-axum"] }
askama_axum = "0.4"
sqlx = { version = "0.7", default-features = false, features = ["runtime-tokio", "postgres", "macros", "migrate", "chrono"] }
tokio = { version = "1", features = ["macros", "rt-multi-thread", "net"] }
chrono = "0.4"
resvg = { version = "0.35", default-features = false }
usvg = { version = "0.35", default-features = false }
tiny-skia = "0.11"
webp = { version = "0.2", default-features = false }
