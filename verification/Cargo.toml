[package]
name = "graphene_core"
version = "0.1.0"
edition = "2021"
publish = false

[dependencies]
bezier-rs = "=0.4.1"
glam = "=0.24.2"
