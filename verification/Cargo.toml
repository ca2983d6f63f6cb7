[package]
name = "rx3wm"
version = "0.1.0"
edition = "2021"
publish = false

[dependencies]
log = "0.4"
fern = "*"
slog = "2"
slog-scope = "4"
xcb = "*"
rustwlc = "*"
dylib = "*"
