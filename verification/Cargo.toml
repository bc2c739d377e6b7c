[package]
name = "heimdall"
version = "0.1.0"
edition = "2021"
publish = false

[dependencies]
rand = "=0.8.8"
rusqlite = { version = "*", features = ["bundled"] }
i2cdev = "=0.4.4"
sysfs_gpio = "*"
pn532 = "=0.1.0"
void = "*"
