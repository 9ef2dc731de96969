//! NanoWin: a platform-neutral model of applications, windows and
//! per-window render surfaces, with the frame lifecycle of each surface
//! stated and proved.

pub mod version;
pub mod geometry;
pub mod surface;
pub mod app;
pub mod window;
pub mod windows;
pub mod macos;
pub mod wasm;
