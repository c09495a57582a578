[package]
name = "btpair"
version = "0.1.0"
edition = "2021"
publish = false

[dependencies]
bluer = { version = "=0.17.4", features = ["bluetoothd"] }
# Not called here: bluer depends on it, and its vendored feature builds libdbus from
# source, so that no system package is needed.
dbus = { version = "=0.9.12", features = ["vendored"] }
futures = "=0.3.34"
sdl2 = { version = "=0.38.0", features = ["ttf"] }
tokio = { version = "=1.54.1", features = ["macros", "rt", "sync", "time"] }
