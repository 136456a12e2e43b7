[package]
name = "cmd_client"
version = "0.1.0"
edition = "2021"
publish = false

[dependencies]
getch = "*"
terminal_size = "*"
