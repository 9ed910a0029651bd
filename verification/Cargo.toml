[package]
name = "user_management_program"
version = "0.1.0"
edition = "2021"
publish = false
