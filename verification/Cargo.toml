[package]
name = "ios_examples"
version = "0.1.0"
edition = "2021"
publish = false

[dependencies]
bevy = { version = "=0.17.3", default-features = false, features = ["std", "bevy_log", "bevy_ui", "bevy_text", "bevy_window", "bevy_color", "bevy_core_pipeline", "bevy_render", "bevy_sprite", "default_font"] }
block2 = "0.6"
dispatch2 = "0.3"
embed_plist = "1"
objc2 = "0.6"
objc2-foundation = "0.3"
objc2-ui-kit = "0.3"
objc2-user-notifications = "0.3"
