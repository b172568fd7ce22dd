[package]
name = "luaproc"
version = "0.1.0"
edition = "2021"
publish = false

[dependencies]
syn = { version = "*", features = ["full"] }
quote = "*"
mlua = { version = "*", features = ["lua54", "vendored"] }
