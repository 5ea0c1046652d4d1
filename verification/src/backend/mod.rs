//! The backend: what owns the device, the session broker and the renderer.

pub mod drm;

use vstd::prelude::*;

verus! {

/// What every backend of the compositor is.
pub trait Backend {

}

} // verus!
