[package]
name = "power_profiles_switcher"
version = "0.1.0"
edition = "2021"
publish = false

[dependencies]
anyhow = "*"
directories = "*"
lm-sensors = "*"
serde = { version = "*", features = ["derive"] }
tokio = { version = "*", features = ["macros", "rt-multi-thread", "signal", "time", "sync"] }
tokio-util = "*"
toml = "*"
zbus = "*"
zvariant = "*"
