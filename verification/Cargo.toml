[package]
name = "computed_style"
version = "0.1.0"
edition = "2021"
publish = false

[dependencies]
app_units = "*"
servo_arc = "*"
