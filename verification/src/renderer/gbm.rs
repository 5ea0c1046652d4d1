//! The renderer on a buffer manager: it owns the device, and shows frames
//! by scan-out buffers and page flips.

use vstd::prelude::*;
use vstd::string::*;
use crate::backend::drm::DRMDevice;
use crate::egl::capability::Capability;
use crate::renderer::{Renderer, RendererKind};
use crate::renderer::pixels::Pattern;
use crate::renderer::flip::{
    Connector,
    ModesetError,
    PageFlipManager,
    first_output,
    select_output,
};

verus! {

/// The number of steps that the bar of the test frames takes.
pub const TEST_STEPS: usize = 128;

/// The number of workers that fill a test frame, each its band of rows.
pub const TEST_WORKERS: usize = 8;

/// The number of times that the test frames are shown.
pub const TEST_ROUNDS: usize = 20;

/// The test frames of the bar, one for each of its `steps` steps, in the
/// order in which they are shown.
pub fn bar_patterns(steps: usize) -> (patterns: Vec<Pattern>)
    ensures
        patterns@.len() == steps,
        forall|k: int|
            0 <= k < steps ==> #[trigger] patterns@[k] == (Pattern::Bar { step: k as usize }),
{
    let mut patterns: Vec<Pattern> = Vec::new();
    let mut step: usize = 0;
    while step < steps
        invariant
            step <= steps,
            patterns@.len() == step,
            forall|k: int|
                0 <= k < step ==> #[trigger] patterns@[k] == (Pattern::Bar { step: k as usize }),
        decreases steps - step,
    {
        patterns.push(Pattern::Bar { step });
        step = step + 1;
    }
    patterns
}

/// The renderer on a buffer manager.
#[derive(Debug)]
pub struct GBMRenderer {
    drm_device: DRMDevice,
}

/// The complaint about the GL dispatch library that could not be loaded.
pub open spec fn library_failed_text(detail: Seq<char>) -> Seq<char> {
    "Error loading \"libglapi.so.0\" dlerror:\n\""@ + detail + "\""@
}

/// The complaint about the buffer manager that could not be created.
pub open spec fn device_failed_text(detail: Seq<char>) -> Seq<char> {
    "Could not create GDB Device: "@ + detail
}

impl GBMRenderer {
    /// The descriptor of the device that the renderer owns.
    pub closed spec fn descriptor(&self) -> i32 {
        self.drm_device.descriptor()
    }

    /// The library that must be loaded before the buffer manager is made.
    pub fn library_name() -> (name: &'static str)
        ensures
            name@ == "libglapi.so.0"@,
    {
        "libglapi.so.0"
    }

    /// The renderer on `drm_device`, given how loading the GL dispatch
    /// library and creating the buffer manager went: each `Err` holds the
    /// words of the failure.
    pub fn new(drm_device: DRMDevice, library: Result<(), &str>, manager: Result<(), &str>) -> (r:
        Result<Box<Self>, String>)
        ensures
            match library {
                Err(detail) => r is Err && r->Err_0@ == library_failed_text(detail@),
                Ok(_) => match manager {
                    Err(detail) => r is Err && r->Err_0@ == device_failed_text(detail@),
                    Ok(_) => r is Ok && r->Ok_0.descriptor() == drm_device.descriptor(),
                },
            },
    {
        match library {
            Err(detail) => {
                let mut message = String::from_str("Error loading \"libglapi.so.0\" dlerror:\n\"");
                message.append(detail);
                message.append("\"");
                return Err(message);
            },
            Ok(_) => {},
        }
        match manager {
            Err(detail) => {
                let mut message = String::from_str("Could not create GDB Device: ");
                message.append(detail);
                Err(message)
            },
            Ok(_) => Ok(Box::new(GBMRenderer { drm_device })),
        }
    }

    /// The device that the renderer owns.
    pub fn drm_device(&self) -> (device: &DRMDevice)
        ensures
            device.descriptor() == self.descriptor(),
    {
        &self.drm_device
    }

    /// The page-flip manager for the output that the enumerated connectors
    /// and CRTCs give: the first connector with its first mode, on the
    /// first CRTC.
    pub fn outputs(&self, connectors: &Vec<Connector>, crtcs: &Vec<u32>) -> (r: Result<
        PageFlipManager,
        ModesetError,
    >)
        ensures
            match first_output(connectors@, crtcs@) {
                Ok(output) => r is Ok && r->Ok_0.wf() && r->Ok_0.output() == output
                    && r->Ok_0.count() == 0 && !r->Ok_0.started() && !r->Ok_0.flip_pending(),
                Err(e) => r == Err::<PageFlipManager, ModesetError>(e),
            },
    {
        match select_output(connectors, crtcs) {
            Ok(output) => Ok(PageFlipManager::new(output)),
            Err(e) => Err(e),
        }
    }
}

impl Renderer for GBMRenderer {
    open spec fn strategy(&self) -> RendererKind {
        RendererKind::BufferManager
    }

    open spec fn can(&self, capability: Capability) -> bool {
        false
    }

    fn kind(&self) -> (kind: RendererKind) {
        RendererKind::BufferManager
    }

    fn provides(&self, capability: Capability) -> (b: bool) {
        false
    }
}

} // verus!
