[package]
name = "gameplay_core"
version = "0.1.0"
edition = "2021"
publish = false

[dependencies]
bevy = { version = "=0.18.1", default-features = false }
bevy_bae = { version = "=0.1.0", default-features = false }
bevy_enhanced_input = { version = "=0.23.2", default-features = false }
bevy_landmass = { version = "=0.11.1", default-features = false }
bevy_rerecast = { version = "0.4", default-features = false }
bevy_seedling = { version = "=0.7.2", default-features = false }
bevy_shuffle_bag = "=0.4.0"
firewheel = { version = "0.10", default-features = false }
landmass_rerecast = { version = "0.2", default-features = false }
rand = "=0.9.5"
tracing = "=0.1.44"
