//! The capabilities of a display connection: which extension advertises
//! each, which entry points each needs, and which are mandatory.

use vstd::prelude::*;
use vstd::string::*;
use vstd::hash_set::StringHashSet;
use crate::egl::extensions::Extensions;

verus! {

/// Something that a display connection may be able to do.
#[derive(Debug, Clone, Copy, PartialEq, Eq, Structural)]
pub enum Capability {
    /// Images can be created and destroyed.
    Image,
    /// Contexts can be given a priority.
    ContextPriority,
    /// The display can be bound to a Wayland display.
    BindDisplay,
    /// The age of a back buffer can be asked for.
    BufferAge,
    /// Buffers can be swapped with damage, in the EXT flavour.
    SwapBuffersWithDamageExt,
    /// Buffers can be swapped with damage, in the KHR flavour.
    SwapBuffersWithDamageKhr,
    /// Contexts need no configuration.
    ConfiglessContext,
    /// Contexts can be current without a surface.
    SurfacelessContext,
    /// DMA buffers can be imported.
    DmabufImport,
    /// The formats and modifiers of DMA buffers can be asked for.
    DmabufImportModifiers,
    /// Fence syncs can be created and exported.
    NativeFenceSync,
    /// Output layers can be enumerated.
    OutputBase,
    /// Output layers can be found by their DRM objects.
    OutputDrm,
    /// Page flips are notified.
    OutputDrmFlipEvent,
    /// Streams can be created.
    Stream,
    /// A surface can feed a stream.
    StreamProducerEglsurface,
    /// An output layer can consume a stream.
    StreamConsumerEgloutput,
    /// Streams take attributes.
    StreamAttrib,
    /// The consumer decides when frames are acquired.
    StreamAcquireMode,
    /// A texture can consume a stream.
    StreamConsumerGltexture,
    /// Wayland clients can present through streams.
    WaylandEglstream,
    /// Displays and surfaces can be created for a platform.
    PlatformBase,
}

/// The entry points that were resolved, by name.
pub struct EntryPoints(StringHashSet);

impl View for EntryPoints {
    type V = Set<Seq<char>>;

    closed spec fn view(&self) -> Set<Seq<char>> {
        self.0@
    }
}

impl EntryPoints {
    /// No entry point.
    pub fn new() -> (loaded: Self)
        ensures
            loaded@ == Set::<Seq<char>>::empty(),
    {
        EntryPoints(StringHashSet::new())
    }

    /// Takes note that the entry point `name` was resolved.
    pub fn record(&mut self, name: &str)
        ensures
            final(self)@ == old(self)@.insert(name@),
    {
        self.0.insert(name.to_owned());
    }

    /// Whether the entry point `name` was resolved.
    pub fn is_loaded(&self, name: &str) -> (b: bool)
        ensures
            b == self@.contains(name@),
    {
        self.0.contains(name)
    }
}

/// Every capability, in the order in which diagnostics list them.
pub open spec fn all_capabilities() -> Seq<Capability> {
    seq![
        Capability::Image,
        Capability::ContextPriority,
        Capability::BindDisplay,
        Capability::BufferAge,
        Capability::SwapBuffersWithDamageExt,
        Capability::SwapBuffersWithDamageKhr,
        Capability::ConfiglessContext,
        Capability::SurfacelessContext,
        Capability::DmabufImport,
        Capability::DmabufImportModifiers,
        Capability::NativeFenceSync,
        Capability::OutputBase,
        Capability::OutputDrm,
        Capability::OutputDrmFlipEvent,
        Capability::Stream,
        Capability::StreamProducerEglsurface,
        Capability::StreamConsumerEgloutput,
        Capability::StreamAttrib,
        Capability::StreamAcquireMode,
        Capability::StreamConsumerGltexture,
        Capability::WaylandEglstream,
        Capability::PlatformBase,
    ]
}

/// Whether the extension strings advertise the capability: `display` is the
/// extension set of the display, `client` that of the EGL client library.
pub open spec fn advertised(
    capability: Capability,
    display: Set<Seq<char>>,
    client: Set<Seq<char>>,
) -> bool {
    match capability {
        Capability::Image => true,
        Capability::ContextPriority => display.contains("EGL_IMG_context_priority"@),
        Capability::BindDisplay => display.contains("EGL_WL_bind_wayland_display"@),
        Capability::BufferAge => display.contains("EGL_EXT_buffer_age"@),
        Capability::SwapBuffersWithDamageExt => display.contains("EGL_EXT_swap_buffers_with_damage"@),
        Capability::SwapBuffersWithDamageKhr => display.contains("EGL_KHR_swap_buffers_with_damage"@),
        Capability::ConfiglessContext => display.contains("EGL_KHR_no_config_context"@) || display.contains("EGL_MESA_configless_context"@),
        Capability::SurfacelessContext => display.contains("EGL_KHR_surfaceless_context"@),
        Capability::DmabufImport => display.contains("EGL_EXT_image_dma_buf_import"@),
        Capability::DmabufImportModifiers => display.contains("EGL_EXT_image_dma_buf_import_modifiers"@),
        Capability::NativeFenceSync => display.contains("EGL_KHR_fence_sync"@) && display.contains("EGL_ANDROID_native_fence_sync"@),
        Capability::OutputBase => display.contains("EGL_EXT_output_base"@),
        Capability::OutputDrm => display.contains("EGL_EXT_output_drm"@),
        Capability::OutputDrmFlipEvent => display.contains("EGL_NV_output_drm_flip_event"@),
        Capability::Stream => display.contains("EGL_KHR_stream"@),
        Capability::StreamProducerEglsurface => display.contains("EGL_KHR_stream_producer_eglsurface"@),
        Capability::StreamConsumerEgloutput => display.contains("EGL_EXT_stream_consumer_egloutput"@),
        Capability::StreamAttrib => display.contains("EGL_NV_stream_attrib"@),
        Capability::StreamAcquireMode => display.contains("EGL_EXT_stream_acquire_mode"@),
        Capability::StreamConsumerGltexture => display.contains("EGL_KHR_stream_consumer_gltexture"@),
        Capability::WaylandEglstream => display.contains("EGL_WL_wayland_eglstream"@),
        Capability::PlatformBase => client.contains("EGL_EXT_platform_base"@),
    }
}

/// The entry points that the capability works through.
pub open spec fn entry_points(capability: Capability) -> Seq<Seq<char>> {
    match capability {
        Capability::Image => seq!["eglCreateImageKHR"@, "eglDestroyImageKHR"@],
        Capability::ContextPriority => seq![],
        Capability::BindDisplay => seq!["eglBindWaylandDisplayWL"@, "eglUnbindWaylandDisplayWL"@, "eglQueryWaylandBufferWL"@],
        Capability::BufferAge => seq![],
        Capability::SwapBuffersWithDamageExt => seq!["eglSwapBuffersWithDamageEXT"@],
        Capability::SwapBuffersWithDamageKhr => seq!["eglSwapBuffersWithDamageKHR"@],
        Capability::ConfiglessContext => seq![],
        Capability::SurfacelessContext => seq![],
        Capability::DmabufImport => seq![],
        Capability::DmabufImportModifiers => seq!["eglQueryDmaBufFormatsEXT"@, "eglQueryDmaBufModifiersEXT"@],
        Capability::NativeFenceSync => seq!["eglCreateSyncKHR"@, "eglDestroySyncKHR"@, "eglDupNativeFenceFDANDROID"@],
        Capability::OutputBase => seq!["eglGetOutputLayersEXT"@, "eglQueryOutputLayerAttribEXT"@],
        Capability::OutputDrm => seq![],
        Capability::OutputDrmFlipEvent => seq![],
        Capability::Stream => seq!["eglCreateStreamKHR"@, "eglDestroyStreamKHR"@, "eglQueryStreamKHR"@],
        Capability::StreamProducerEglsurface => seq!["eglCreateStreamProducerSurfaceKHR"@],
        Capability::StreamConsumerEgloutput => seq!["eglStreamConsumerOutputEXT"@],
        Capability::StreamAttrib => seq!["eglCreateStreamAttribNV"@, "eglStreamConsumerAcquireAttribNV"@],
        Capability::StreamAcquireMode => seq![],
        Capability::StreamConsumerGltexture => seq!["eglStreamConsumerGLTextureExternalKHR"@],
        Capability::WaylandEglstream => seq![],
        Capability::PlatformBase => seq!["eglCreatePlatformWindowSurfaceEXT"@],
    }
}

/// Whether all of `names` are in `loaded`.
pub open spec fn all_loaded(names: Seq<Seq<char>>, loaded: Set<Seq<char>>) -> bool {
    forall|i: int| 0 <= i < names.len() ==> loaded.contains(#[trigger] names[i])
}

/// Whether the capability can be used: it is advertised and each of its
/// entry points was resolved.
pub open spec fn available(
    capability: Capability,
    display: Set<Seq<char>>,
    client: Set<Seq<char>>,
    loaded: Set<Seq<char>>,
) -> bool {
    advertised(capability, display, client) && all_loaded(entry_points(capability), loaded)
}

/// Whether a renderer cannot be had without the capability: the seven of
/// the stream family.
pub open spec fn is_mandatory(capability: Capability) -> bool {
    match capability {
        Capability::OutputBase
        | Capability::OutputDrm
        | Capability::Stream
        | Capability::StreamProducerEglsurface
        | Capability::StreamConsumerEgloutput
        | Capability::StreamAttrib
        | Capability::StreamAcquireMode => true,
        _ => false,
    }
}

/// The name under which diagnostics report the capability.
pub open spec fn flag_name(capability: Capability) -> Seq<char> {
    match capability {
        Capability::Image => "has_egl_image"@,
        Capability::ContextPriority => "has_context_priority"@,
        Capability::BindDisplay => "has_bind_display"@,
        Capability::BufferAge => "has_egl_buffer_age"@,
        Capability::SwapBuffersWithDamageExt => "has_egl_ext_swap_buffers_with_damage"@,
        Capability::SwapBuffersWithDamageKhr => "has_egl_khr_swap_buffers_with_damage"@,
        Capability::ConfiglessContext => "has_configless_context"@,
        Capability::SurfacelessContext => "has_surfaceless_context"@,
        Capability::DmabufImport => "has_dmabuf_import"@,
        Capability::DmabufImportModifiers => "has_dmabuf_import_modifiers"@,
        Capability::NativeFenceSync => "has_native_fence_sync"@,
        Capability::OutputBase => "has_egl_output_base"@,
        Capability::OutputDrm => "has_egl_output_drm"@,
        Capability::OutputDrmFlipEvent => "has_egl_output_drm_flip_event"@,
        Capability::Stream => "has_egl_stream"@,
        Capability::StreamProducerEglsurface => "has_egl_stream_producer_eglsurface"@,
        Capability::StreamConsumerEgloutput => "has_egl_stream_consumer_egloutput"@,
        Capability::StreamAttrib => "has_egl_stream_attrib"@,
        Capability::StreamAcquireMode => "has_egl_stream_acquire_mode"@,
        Capability::StreamConsumerGltexture => "has_egl_stream_consumer_gltexture"@,
        Capability::WaylandEglstream => "has_egl_wayland_eglstream"@,
        Capability::PlatformBase => "has_egl_platform_base"@,
    }
}

/// The place of the capability in the list of all capabilities.
pub open spec fn index_of(capability: Capability) -> int {
    match capability {
        Capability::Image => 0,
        Capability::ContextPriority => 1,
        Capability::BindDisplay => 2,
        Capability::BufferAge => 3,
        Capability::SwapBuffersWithDamageExt => 4,
        Capability::SwapBuffersWithDamageKhr => 5,
        Capability::ConfiglessContext => 6,
        Capability::SurfacelessContext => 7,
        Capability::DmabufImport => 8,
        Capability::DmabufImportModifiers => 9,
        Capability::NativeFenceSync => 10,
        Capability::OutputBase => 11,
        Capability::OutputDrm => 12,
        Capability::OutputDrmFlipEvent => 13,
        Capability::Stream => 14,
        Capability::StreamProducerEglsurface => 15,
        Capability::StreamConsumerEgloutput => 16,
        Capability::StreamAttrib => 17,
        Capability::StreamAcquireMode => 18,
        Capability::StreamConsumerGltexture => 19,
        Capability::WaylandEglstream => 20,
        Capability::PlatformBase => 21,
    }
}

/// Every capability is in the list of all capabilities, at its place.
pub proof fn lemma_all_capabilities(capability: Capability)
    ensures
        0 <= index_of(capability) < all_capabilities().len(),
        all_capabilities()[index_of(capability)] == capability,
        all_capabilities().contains(capability),
{
}

impl Capability {
    /// Every capability, in the order in which diagnostics list them.
    pub fn all() -> (list: Vec<Capability>)
        ensures
            list@ == all_capabilities(),
    {
        let mut list: Vec<Capability> = Vec::new();
        list.push(Capability::Image);
        list.push(Capability::ContextPriority);
        list.push(Capability::BindDisplay);
        list.push(Capability::BufferAge);
        list.push(Capability::SwapBuffersWithDamageExt);
        list.push(Capability::SwapBuffersWithDamageKhr);
        list.push(Capability::ConfiglessContext);
        list.push(Capability::SurfacelessContext);
        list.push(Capability::DmabufImport);
        list.push(Capability::DmabufImportModifiers);
        list.push(Capability::NativeFenceSync);
        list.push(Capability::OutputBase);
        list.push(Capability::OutputDrm);
        list.push(Capability::OutputDrmFlipEvent);
        list.push(Capability::Stream);
        list.push(Capability::StreamProducerEglsurface);
        list.push(Capability::StreamConsumerEgloutput);
        list.push(Capability::StreamAttrib);
        list.push(Capability::StreamAcquireMode);
        list.push(Capability::StreamConsumerGltexture);
        list.push(Capability::WaylandEglstream);
        list.push(Capability::PlatformBase);
        list
    }

    /// The place of the capability in the list of all capabilities.
    pub fn index(self) -> (i: usize)
        ensures
            i == index_of(self),
    {
        match self {
            Capability::Image => 0,
            Capability::ContextPriority => 1,
            Capability::BindDisplay => 2,
            Capability::BufferAge => 3,
            Capability::SwapBuffersWithDamageExt => 4,
            Capability::SwapBuffersWithDamageKhr => 5,
            Capability::ConfiglessContext => 6,
            Capability::SurfacelessContext => 7,
            Capability::DmabufImport => 8,
            Capability::DmabufImportModifiers => 9,
            Capability::NativeFenceSync => 10,
            Capability::OutputBase => 11,
            Capability::OutputDrm => 12,
            Capability::OutputDrmFlipEvent => 13,
            Capability::Stream => 14,
            Capability::StreamProducerEglsurface => 15,
            Capability::StreamConsumerEgloutput => 16,
            Capability::StreamAttrib => 17,
            Capability::StreamAcquireMode => 18,
            Capability::StreamConsumerGltexture => 19,
            Capability::WaylandEglstream => 20,
            Capability::PlatformBase => 21,
        }
    }

    /// Whether the extension sets advertise the capability.
    pub fn is_advertised(self, display: &Extensions, client: &Extensions) -> (b: bool)
        ensures
            b == advertised(self, display@, client@),
    {
        match self {
            Capability::Image => true,
            Capability::ContextPriority => display.contains("EGL_IMG_context_priority"),
            Capability::BindDisplay => display.contains("EGL_WL_bind_wayland_display"),
            Capability::BufferAge => display.contains("EGL_EXT_buffer_age"),
            Capability::SwapBuffersWithDamageExt => display.contains("EGL_EXT_swap_buffers_with_damage"),
            Capability::SwapBuffersWithDamageKhr => display.contains("EGL_KHR_swap_buffers_with_damage"),
            Capability::ConfiglessContext => display.contains("EGL_KHR_no_config_context") || display.contains("EGL_MESA_configless_context"),
            Capability::SurfacelessContext => display.contains("EGL_KHR_surfaceless_context"),
            Capability::DmabufImport => display.contains("EGL_EXT_image_dma_buf_import"),
            Capability::DmabufImportModifiers => display.contains("EGL_EXT_image_dma_buf_import_modifiers"),
            Capability::NativeFenceSync => display.contains("EGL_KHR_fence_sync") && display.contains("EGL_ANDROID_native_fence_sync"),
            Capability::OutputBase => display.contains("EGL_EXT_output_base"),
            Capability::OutputDrm => display.contains("EGL_EXT_output_drm"),
            Capability::OutputDrmFlipEvent => display.contains("EGL_NV_output_drm_flip_event"),
            Capability::Stream => display.contains("EGL_KHR_stream"),
            Capability::StreamProducerEglsurface => display.contains("EGL_KHR_stream_producer_eglsurface"),
            Capability::StreamConsumerEgloutput => display.contains("EGL_EXT_stream_consumer_egloutput"),
            Capability::StreamAttrib => display.contains("EGL_NV_stream_attrib"),
            Capability::StreamAcquireMode => display.contains("EGL_EXT_stream_acquire_mode"),
            Capability::StreamConsumerGltexture => display.contains("EGL_KHR_stream_consumer_gltexture"),
            Capability::WaylandEglstream => display.contains("EGL_WL_wayland_eglstream"),
            Capability::PlatformBase => client.contains("EGL_EXT_platform_base"),
        }
    }

    /// The names of the entry points that the capability works through.
    pub fn entry_point_names(self) -> (names: Vec<&'static str>)
        ensures
            names@.len() == entry_points(self).len(),
            forall|i: int| 0 <= i < names@.len() ==> (#[trigger] names@[i])@ == entry_points(self)[i],
    {
        let mut names: Vec<&'static str> = Vec::new();
        match self {
            Capability::Image => {
                names.push("eglCreateImageKHR");
                names.push("eglDestroyImageKHR");
            },
            Capability::ContextPriority => {},
            Capability::BindDisplay => {
                names.push("eglBindWaylandDisplayWL");
                names.push("eglUnbindWaylandDisplayWL");
                names.push("eglQueryWaylandBufferWL");
            },
            Capability::BufferAge => {},
            Capability::SwapBuffersWithDamageExt => {
                names.push("eglSwapBuffersWithDamageEXT");
            },
            Capability::SwapBuffersWithDamageKhr => {
                names.push("eglSwapBuffersWithDamageKHR");
            },
            Capability::ConfiglessContext => {},
            Capability::SurfacelessContext => {},
            Capability::DmabufImport => {},
            Capability::DmabufImportModifiers => {
                names.push("eglQueryDmaBufFormatsEXT");
                names.push("eglQueryDmaBufModifiersEXT");
            },
            Capability::NativeFenceSync => {
                names.push("eglCreateSyncKHR");
                names.push("eglDestroySyncKHR");
                names.push("eglDupNativeFenceFDANDROID");
            },
            Capability::OutputBase => {
                names.push("eglGetOutputLayersEXT");
                names.push("eglQueryOutputLayerAttribEXT");
            },
            Capability::OutputDrm => {},
            Capability::OutputDrmFlipEvent => {},
            Capability::Stream => {
                names.push("eglCreateStreamKHR");
                names.push("eglDestroyStreamKHR");
                names.push("eglQueryStreamKHR");
            },
            Capability::StreamProducerEglsurface => {
                names.push("eglCreateStreamProducerSurfaceKHR");
            },
            Capability::StreamConsumerEgloutput => {
                names.push("eglStreamConsumerOutputEXT");
            },
            Capability::StreamAttrib => {
                names.push("eglCreateStreamAttribNV");
                names.push("eglStreamConsumerAcquireAttribNV");
            },
            Capability::StreamAcquireMode => {},
            Capability::StreamConsumerGltexture => {
                names.push("eglStreamConsumerGLTextureExternalKHR");
            },
            Capability::WaylandEglstream => {},
            Capability::PlatformBase => {
                names.push("eglCreatePlatformWindowSurfaceEXT");
            },
        }
        names
    }

    /// Whether the capability can be used, given the extension sets and the
    /// entry points that were resolved.
    pub fn is_available(self, display: &Extensions, client: &Extensions, loaded: &EntryPoints) -> (b:
        bool)
        ensures
            b == available(self, display@, client@, loaded@),
    {
        if !self.is_advertised(display, client) {
            return false;
        }
        let names = self.entry_point_names();
        let mut i: usize = 0;
        while i < names.len()
            invariant
                i <= names@.len(),
                names@.len() == entry_points(self).len(),
                forall|k: int|
                    0 <= k < names@.len() ==> (#[trigger] names@[k])@ == entry_points(self)[k],
                forall|k: int| 0 <= k < i ==> loaded@.contains(#[trigger] entry_points(self)[k]),
            decreases names@.len() - i,
        {
            if !loaded.is_loaded(names[i]) {
                return false;
            }
            i = i + 1;
        }
        true
    }

    /// Whether a renderer cannot be had without the capability.
    pub fn mandatory(self) -> (b: bool)
        ensures
            b == is_mandatory(self),
    {
        match self {
            Capability::OutputBase
            | Capability::OutputDrm
            | Capability::Stream
            | Capability::StreamProducerEglsurface
            | Capability::StreamConsumerEgloutput
            | Capability::StreamAttrib
            | Capability::StreamAcquireMode => true,
            _ => false,
        }
    }

    /// The name under which diagnostics report the capability.
    pub fn name(self) -> (name: &'static str)
        ensures
            name@ == flag_name(self),
    {
        match self {
            Capability::Image => "has_egl_image",
            Capability::ContextPriority => "has_context_priority",
            Capability::BindDisplay => "has_bind_display",
            Capability::BufferAge => "has_egl_buffer_age",
            Capability::SwapBuffersWithDamageExt => "has_egl_ext_swap_buffers_with_damage",
            Capability::SwapBuffersWithDamageKhr => "has_egl_khr_swap_buffers_with_damage",
            Capability::ConfiglessContext => "has_configless_context",
            Capability::SurfacelessContext => "has_surfaceless_context",
            Capability::DmabufImport => "has_dmabuf_import",
            Capability::DmabufImportModifiers => "has_dmabuf_import_modifiers",
            Capability::NativeFenceSync => "has_native_fence_sync",
            Capability::OutputBase => "has_egl_output_base",
            Capability::OutputDrm => "has_egl_output_drm",
            Capability::OutputDrmFlipEvent => "has_egl_output_drm_flip_event",
            Capability::Stream => "has_egl_stream",
            Capability::StreamProducerEglsurface => "has_egl_stream_producer_eglsurface",
            Capability::StreamConsumerEgloutput => "has_egl_stream_consumer_egloutput",
            Capability::StreamAttrib => "has_egl_stream_attrib",
            Capability::StreamAcquireMode => "has_egl_stream_acquire_mode",
            Capability::StreamConsumerGltexture => "has_egl_stream_consumer_gltexture",
            Capability::WaylandEglstream => "has_egl_wayland_eglstream",
            Capability::PlatformBase => "has_egl_platform_base",
        }
    }
}

} // verus!
