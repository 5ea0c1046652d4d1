//! What is shared with the Wayland side of the compositor.

mod error;

pub use self::error::WaylandError;
