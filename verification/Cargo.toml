[package]
name = "macos_haptics"
version = "0.1.0"
edition = "2021"
publish = false

[dependencies]
objc2 = "0.5"
objc2-app-kit = { version = "0.2", features = ["NSHapticFeedback", "NSAlignmentFeedbackFilter", "NSApplication", "NSResponder", "NSView", "NSGestureRecognizer", "NSPanGestureRecognizer"] }
objc2-foundation = { version = "0.2", features = ["NSArray", "NSGeometry"] }
serde = { version = "1", features = ["derive"] }
tauri = { version = "2", default-features = false }
