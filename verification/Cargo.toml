[package]
name = "mysqlclient_build"
version = "0.1.0"
edition = "2021"
publish = false

[dependencies]
semver = "1"
pkg-config = "0.3"
vcpkg = "0.2"
bindgen = "*"
