[package]
name = "basic_portals"
version = "0.1.0"
edition = "2021"
publish = false

[dependencies]
bevy = { version = "0.15", default-features = false, features = ["bevy_asset", "bevy_render", "bevy_core_pipeline", "bevy_window", "bevy_picking"] }
uuid = "1"
