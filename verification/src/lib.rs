//! Secure-display mode control: a platform capability probe and a controller
//! that tracks, and on supporting platforms enforces through the host, the
//! flag that blanks a window in screenshots and screen recordings.

pub mod platform;
pub mod android_security;
pub mod android_jni;
pub mod plugin;
pub mod controller;
pub mod laws;
pub mod native_window;
