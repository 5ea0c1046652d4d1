//! Sans-I/O core of a DRM display backend.
//!
//! Every decision the backend takes while it brings a screen up lives here as
//! a function from plain values to plain values: which GPU is the primary one
//! of a seat, what to ask of the session manager and how to read its answers,
//! which EGL device, display configuration and extensions are acceptable, how
//! a frame is cut into bands for parallel filling, and when a scan-out buffer
//! may be flipped or freed. The caller performs the system calls and feeds
//! their results back in.

pub mod text;
mod sys;
pub mod launcher;
pub mod systemd;
pub mod compositor;
pub mod backend;
pub mod wayland;
pub mod egl;
pub mod renderer;
