[package]
name = "nanowin"
version = "0.1.0"
edition = "2021"
publish = false

[dependencies]
objc2 = "0.5"
objc2-foundation = { version = "0.2", features = ["all"] }
objc2-app-kit = { version = "0.2", features = ["all"] }
objc2-metal = { version = "0.2", features = ["all"] }
objc2-metal-kit = { version = "0.2", features = ["all"] }
objc2-quartz-core = { version = "0.2", features = ["all"] }
skia-safe = { version = "*", features = ["gl", "metal"] }
wasm-bindgen = "0.2"
web-sys = { version = "0.3", features = ["Window", "Document", "Element", "HtmlElement", "HtmlCanvasElement", "CanvasRenderingContext2d", "CssStyleDeclaration", "console"] }
windows = { version = "*", features = ["Win32_Foundation", "Win32_Graphics_Gdi", "Win32_Graphics_OpenGL", "Win32_System_LibraryLoader", "Win32_UI_WindowsAndMessaging"] }
