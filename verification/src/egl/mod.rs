//! The render-surface negotiation: devices, displays, configurations,
//! extensions and the capability record derived from them.

pub mod egl_error;
pub mod extensions;
pub mod types;
pub mod device;
pub mod display;
pub mod image;
pub mod capability;
pub mod renderer;
pub mod loader;

pub use self::egl_error::EGLError;
