//! The software renderer, of which only the shell exists.

use vstd::prelude::*;
use crate::egl::capability::Capability;
use crate::renderer::{Operation, Renderer, RendererKind, Unsupported};

verus! {

/// The software renderer. None of its operations is implemented: each one
/// says so instead of doing anything.
#[derive(Debug)]
pub struct PixmanRenderer {}

/// The refusal of `operation` by the software renderer.
pub open spec fn refusal(operation: Operation) -> Result<(), Unsupported> {
    Err(Unsupported { renderer: RendererKind::Software, operation })
}

impl PixmanRenderer {
    /// The software renderer.
    pub fn new() -> (renderer: Self) {
        PixmanRenderer {  }
    }

    fn refuse(operation: Operation) -> (r: Result<(), Unsupported>)
        ensures
            r == refusal(operation),
    {
        Err(Unsupported { renderer: RendererKind::Software, operation })
    }

    pub fn read_pixels(&self) -> (r: Result<(), Unsupported>)
        ensures
            r == refusal(Operation::ReadPixels),
    {
        Self::refuse(Operation::ReadPixels)
    }

    pub fn repaint_output(&self) -> (r: Result<(), Unsupported>)
        ensures
            r == refusal(Operation::RepaintOutput),
    {
        Self::refuse(Operation::RepaintOutput)
    }

    pub fn flush_damage(&self) -> (r: Result<(), Unsupported>)
        ensures
            r == refusal(Operation::FlushDamage),
    {
        Self::refuse(Operation::FlushDamage)
    }

    pub fn attach(&self) -> (r: Result<(), Unsupported>)
        ensures
            r == refusal(Operation::Attach),
    {
        Self::refuse(Operation::Attach)
    }

    pub fn surface_set_color(&self) -> (r: Result<(), Unsupported>)
        ensures
            r == refusal(Operation::SurfaceSetColor),
    {
        Self::refuse(Operation::SurfaceSetColor)
    }

    pub fn destroy(&self) -> (r: Result<(), Unsupported>)
        ensures
            r == refusal(Operation::Destroy),
    {
        Self::refuse(Operation::Destroy)
    }

    pub fn surface_get_content_size(&self) -> (r: Result<(), Unsupported>)
        ensures
            r == refusal(Operation::SurfaceGetContentSize),
    {
        Self::refuse(Operation::SurfaceGetContentSize)
    }

    pub fn surface_copy_content(&self) -> (r: Result<(), Unsupported>)
        ensures
            r == refusal(Operation::SurfaceCopyContent),
    {
        Self::refuse(Operation::SurfaceCopyContent)
    }
}

impl Renderer for PixmanRenderer {
    open spec fn strategy(&self) -> RendererKind {
        RendererKind::Software
    }

    open spec fn can(&self, capability: Capability) -> bool {
        false
    }

    fn kind(&self) -> (kind: RendererKind) {
        RendererKind::Software
    }

    fn provides(&self, capability: Capability) -> (b: bool) {
        false
    }
}

} // verus!
