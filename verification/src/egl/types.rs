//! The handles and numbers of the EGL API. A handle is kept as the number
//! the EGL library gave; zero is the null handle.

use vstd::prelude::*;

verus! {

pub use crate::egl::egl_error::EGLint;

pub type EGLenum = u32;

pub type EGLDeviceEXT = usize;

pub type EGLDisplayHandle = usize;

pub type EGLConfig = usize;

pub type EGLContext = usize;

pub type EGLClientBuffer = usize;

pub type EGLImageKHR = usize;

pub const NO_DISPLAY: EGLDisplayHandle = 0;

pub const NO_CONTEXT: EGLContext = 0;

pub const NO_IMAGE: EGLImageKHR = 0;

pub const ALPHA_SIZE: EGLint = 0x3021;

pub const BLUE_SIZE: EGLint = 0x3022;

pub const GREEN_SIZE: EGLint = 0x3023;

pub const RED_SIZE: EGLint = 0x3024;

pub const NATIVE_VISUAL_ID: EGLint = 0x302E;

pub const SURFACE_TYPE: EGLint = 0x3033;

pub const NONE: EGLint = 0x3038;

pub const RENDERABLE_TYPE: EGLint = 0x3040;

pub const EXTENSIONS: EGLint = 0x3055;

pub const OPENGL_ES2_BIT: EGLint = 0x0004;

pub const STREAM_BIT_KHR: EGLint = 0x0800;

pub const PLATFORM_DEVICE_EXT: EGLenum = 0x313F;

pub const PLATFORM_GBM_KHR: EGLenum = 0x31D7;

pub const DRM_DEVICE_FILE_EXT: EGLint = 0x3233;

pub const DRM_MASTER_FD_EXT: EGLint = 0x333C;

} // verus!
