[package]
name = "split_ssh"
version = "0.1.0"
edition = "2021"
publish = false
