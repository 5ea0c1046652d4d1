//! The renderers and the buffer and page-flip management beneath them.

pub mod bands;
pub mod pixels;
pub mod flip;
pub mod egl;
pub mod gbm;
pub mod pixman;

use vstd::prelude::*;
use vstd::string::*;
use crate::egl::capability::{Capability, flag_name};
use crate::egl::egl_error::{EGLError, EGLErrorKind, EGLint, fails_with};
use crate::egl::renderer::EGLRenderer;

verus! {

/// The strategies by which a renderer brings frames to the screen.
#[derive(Debug, Clone, Copy, PartialEq, Eq, Structural)]
pub enum RendererKind {
    /// Presentation through hardware streams.
    HardwareStream,
    /// Presentation through a buffer manager.
    BufferManager,
    /// Rendering in software.
    Software,
}

/// An operation of a renderer that is not implemented.
#[derive(Debug, Clone, Copy, PartialEq, Eq, Structural)]
pub enum Operation {
    ReadPixels,
    RepaintOutput,
    FlushDamage,
    Attach,
    SurfaceSetColor,
    Destroy,
    SurfaceGetContentSize,
    SurfaceCopyContent,
}

/// The refusal of an operation that a renderer does not implement.
#[derive(Debug, Clone, Copy, PartialEq, Eq, Structural)]
pub struct Unsupported {
    pub renderer: RendererKind,
    pub operation: Operation,
}

/// A renderer: one of the strategies, with the capabilities that gate what
/// can be asked of it.
pub trait Renderer {
    /// The strategy of the renderer.
    spec fn strategy(&self) -> RendererKind;

    /// Whether the renderer has the capability.
    spec fn can(&self, capability: Capability) -> bool;

    /// The strategy of the renderer.
    fn kind(&self) -> (kind: RendererKind)
        ensures
            kind == self.strategy(),
    ;

    /// Whether the renderer has the capability.
    fn provides(&self, capability: Capability) -> (b: bool)
        ensures
            b == self.can(capability),
    ;
}

impl Renderer for EGLRenderer {
    open spec fn strategy(&self) -> RendererKind {
        RendererKind::HardwareStream
    }

    open spec fn can(&self, capability: Capability) -> bool {
        self.has(capability)
    }

    fn kind(&self) -> (kind: RendererKind) {
        RendererKind::HardwareStream
    }

    fn provides(&self, capability: Capability) -> (b: bool) {
        self.supports(capability)
    }
}

/// The text that refuses an operation for want of a capability.
pub open spec fn not_supported_text(capability: Capability) -> Seq<char> {
    flag_name(capability) + " not supported"@
}

/// Lets an operation pass that needs `capability`, or refuses it: every
/// operation of a renderer is gated by the capability it works through.
pub fn require<R: Renderer>(renderer: &R, capability: Capability, code: EGLint) -> (r: Result<
    (),
    EGLError,
>)
    ensures
        renderer.can(capability) ==> r is Ok,
        !renderer.can(capability) ==> fails_with(
            r,
            EGLErrorKind::Unsupported,
            not_supported_text(capability),
            code as int,
        ),
{
    if renderer.provides(capability) {
        Ok(())
    } else {
        let mut message = String::from_str(capability.name());
        message.append(" not supported");
        Err(EGLError::with_message(EGLErrorKind::Unsupported, message, code))
    }
}

} // verus!
