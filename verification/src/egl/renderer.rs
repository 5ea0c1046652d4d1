//! The hardware-stream renderer: the record of what a display connection
//! can do, and the rules by which a renderer is granted or refused.

use vstd::prelude::*;
use vstd::string::*;
use crate::egl::capability::{
    Capability,
    EntryPoints,
    all_capabilities,
    available,
    flag_name,
    index_of,
    is_mandatory,
    lemma_all_capabilities,
};
use crate::egl::device::{
    EGLDevice,
    get_egl_devices,
    is_device_file,
    is_listing,
};
use crate::egl::display::EGLDisplay;
use crate::egl::egl_error::{
    EGLError,
    EGLErrorKind,
    EGLint,
    egl_error_state,
    error_state_text,
    fails_with,
};
use crate::egl::extensions::Extensions;
use crate::egl::image::{Image, creation_failed_text};
use crate::egl::types::{EGLConfig, EGLDeviceEXT, EGLImageKHR, NO_IMAGE};

verus! {

/// The capability record of a display connection: one flag for each
/// capability, computed once and never again.
#[derive(Debug)]
pub struct Capabilities {
    flags: Vec<bool>,
}

impl Capabilities {
    /// The flag of `capability`.
    pub closed spec fn has(self, capability: Capability) -> bool {
        index_of(capability) < self.flags@.len() && self.flags@[index_of(capability)]
    }

    /// The flag of `capability`.
    pub fn get(&self, capability: Capability) -> (b: bool)
        ensures
            b == self.has(capability),
    {
        let i = capability.index();
        i < self.flags.len() && self.flags[i]
    }

    /// Derives the record from the extension set of the display, that of
    /// the EGL client library, and the entry points that were resolved.
    pub fn negotiate(display: &Extensions, client: &Extensions, loaded: &EntryPoints) -> (record:
        Self)
        ensures
            forall|capability: Capability|
                record.has(capability) == #[trigger] available(
                    capability,
                    display@,
                    client@,
                    loaded@,
                ),
    {
        let all = Capability::all();
        let mut flags: Vec<bool> = Vec::new();
        let mut i: usize = 0;
        while i < all.len()
            invariant
                i <= all@.len(),
                all@ == all_capabilities(),
                flags@.len() == i,
                forall|k: int|
                    0 <= k < i ==> flags@[k] == available(
                        #[trigger] all_capabilities()[k],
                        display@,
                        client@,
                        loaded@,
                    ),
            decreases all@.len() - i,
        {
            flags.push(all[i].is_available(display, client, loaded));
            i = i + 1;
        }
        let record = Capabilities { flags };
        assert forall|capability: Capability|
            record.has(capability) == #[trigger] available(
                capability,
                display@,
                client@,
                loaded@,
            ) by {
            lemma_all_capabilities(capability);
        }
        record
    }
}

/// The mandatory capabilities, in the order in which a refusal lists them.
pub open spec fn mandatory_capabilities() -> Seq<Capability> {
    seq![
        Capability::OutputBase,
        Capability::OutputDrm,
        Capability::Stream,
        Capability::StreamProducerEglsurface,
        Capability::StreamConsumerEgloutput,
        Capability::StreamAttrib,
        Capability::StreamAcquireMode,
    ]
}

/// The capabilities of `list` that are not available, in the order of
/// `list`.
pub open spec fn lacking(
    list: Seq<Capability>,
    display: Set<Seq<char>>,
    client: Set<Seq<char>>,
    loaded: Set<Seq<char>>,
) -> Seq<Capability>
    decreases list.len(),
{
    if list.len() == 0 {
        seq![]
    } else if available(list.last(), display, client, loaded) {
        lacking(list.drop_last(), display, client, loaded)
    } else {
        lacking(list.drop_last(), display, client, loaded).push(list.last())
    }
}

/// The text that refuses a renderer for want of the capabilities
/// `missing`: a heading, then one line for each of them.
pub open spec fn refusal_text(missing: Seq<Capability>) -> Seq<char>
    decreases missing.len(),
{
    if missing.len() == 0 {
        "following required extensions not supported:"@
    } else {
        refusal_text(missing.drop_last()) + "\n                "@ + flag_name(missing.last())
            + ": false"@
    }
}

/// A capability is mandatory exactly if the list of mandatory capabilities
/// holds it.
pub proof fn lemma_mandatory_list(capability: Capability)
    ensures
        is_mandatory(capability) <==> mandatory_capabilities().contains(capability),
{
}

/// The lacking capabilities of a list are those of its members that are
/// not available: none is left out, and none is added.
pub proof fn lemma_lacking(
    list: Seq<Capability>,
    display: Set<Seq<char>>,
    client: Set<Seq<char>>,
    loaded: Set<Seq<char>>,
    capability: Capability,
)
    ensures
        lacking(list, display, client, loaded).contains(capability) <==> list.contains(capability)
            && !available(capability, display, client, loaded),
    decreases list.len(),
{
    if list.len() > 0 {
        let front = list.drop_last();
        lemma_lacking(front, display, client, loaded, capability);
        let short = lacking(front, display, client, loaded);
        if list.contains(capability) {
            let i = choose|i: int| 0 <= i < list.len() && list[i] == capability;
            if i < list.len() - 1 {
                assert(front[i] == capability);
            }
        }
        if !available(list.last(), display, client, loaded) {
            let long = short.push(list.last());
            assert(long[short.len() as int] == list.last());
            if short.contains(capability) {
                let i = choose|i: int| 0 <= i < short.len() && short[i] == capability;
                assert(long[i] == capability);
            }
        }
    }
}

/// Something that a renderer goes without, and says so.
#[derive(Debug, Clone, Copy, PartialEq, Eq, Structural)]
pub enum Warning {
    /// The age of buffers is unknown.
    BufferAge,
    /// Buffers cannot be swapped with damage.
    SwapBuffersWithDamage,
    /// There is no GPU timeline.
    NativeFenceSync,
    /// The EGL client library has no platform base.
    PlatformBase,
    /// Clients cannot present frames through streams.
    ClientFramePresentation,
    /// Page flips are not notified.
    FlipEventNotification,
}

/// Whether `flags` give rise to `warning`.
pub open spec fn is_warned(flags: Capabilities, warning: Warning) -> bool {
    match warning {
        Warning::BufferAge => !flags.has(Capability::BufferAge),
        Warning::SwapBuffersWithDamage => !flags.has(Capability::SwapBuffersWithDamageExt)
            && !flags.has(Capability::SwapBuffersWithDamageKhr),
        Warning::NativeFenceSync => !flags.has(Capability::NativeFenceSync),
        Warning::PlatformBase => !flags.has(Capability::PlatformBase),
        Warning::ClientFramePresentation => !flags.has(Capability::StreamConsumerGltexture)
            || !flags.has(Capability::WaylandEglstream),
        Warning::FlipEventNotification => !flags.has(Capability::OutputDrmFlipEvent),
    }
}

/// All warnings, in the order in which they are given.
pub open spec fn all_warnings() -> Seq<Warning> {
    seq![
        Warning::BufferAge,
        Warning::SwapBuffersWithDamage,
        Warning::NativeFenceSync,
        Warning::PlatformBase,
        Warning::ClientFramePresentation,
        Warning::FlipEventNotification,
    ]
}

/// The warnings of `list` that `flags` give rise to, in the order of `list`.
pub open spec fn warned(list: Seq<Warning>, flags: Capabilities) -> Seq<Warning>
    decreases list.len(),
{
    if list.len() == 0 {
        seq![]
    } else if is_warned(flags, list.last()) {
        warned(list.drop_last(), flags).push(list.last())
    } else {
        warned(list.drop_last(), flags)
    }
}

/// The text of a warning.
pub open spec fn warning_text(warning: Warning) -> Seq<char> {
    match warning {
        Warning::BufferAge => "warning: EGL_EXT_buffer_age not supported. Performance could be affected"@,
        Warning::SwapBuffersWithDamage => "warning: neither EGL_EXT_swap_buffers_with_damage or EGL_KHR_swap_buffers_with_damage is supported. Performance could be affected."@,
        Warning::NativeFenceSync => "warning: Disabling render GPU timeline due to missing EGL_KHR_fence_sync or EGL_ANDROID_native_fence_sync extension"@,
        Warning::PlatformBase => "warning: EGL_EXT_platform_base not supported."@,
        Warning::ClientFramePresentation => "WARNING! following required extensions for EGL client frame presentation through EGLDevice not supported: has_egl_stream_consumer_gltexture, has_egl_wayland_eglstream"@,
        Warning::FlipEventNotification => "WARNING! EGL page flip event notification not supported: has_egl_output_drm_flip_event"@,
    }
}

impl Warning {
    /// Whether `flags` give rise to the warning.
    pub fn applies(self, flags: &Capabilities) -> (b: bool)
        ensures
            b == is_warned(*flags, self),
    {
        match self {
            Warning::BufferAge => !flags.get(Capability::BufferAge),
            Warning::SwapBuffersWithDamage => !flags.get(Capability::SwapBuffersWithDamageExt)
                && !flags.get(Capability::SwapBuffersWithDamageKhr),
            Warning::NativeFenceSync => !flags.get(Capability::NativeFenceSync),
            Warning::PlatformBase => !flags.get(Capability::PlatformBase),
            Warning::ClientFramePresentation => !flags.get(Capability::StreamConsumerGltexture)
                || !flags.get(Capability::WaylandEglstream),
            Warning::FlipEventNotification => !flags.get(Capability::OutputDrmFlipEvent),
        }
    }

    /// The text of the warning.
    pub fn message(self) -> (text: &'static str)
        ensures
            text@ == warning_text(self),
    {
        match self {
            Warning::BufferAge => "warning: EGL_EXT_buffer_age not supported. Performance could be affected",
            Warning::SwapBuffersWithDamage => "warning: neither EGL_EXT_swap_buffers_with_damage or EGL_KHR_swap_buffers_with_damage is supported. Performance could be affected.",
            Warning::NativeFenceSync => "warning: Disabling render GPU timeline due to missing EGL_KHR_fence_sync or EGL_ANDROID_native_fence_sync extension",
            Warning::PlatformBase => "warning: EGL_EXT_platform_base not supported.",
            Warning::ClientFramePresentation => "WARNING! following required extensions for EGL client frame presentation through EGLDevice not supported: has_egl_stream_consumer_gltexture, has_egl_wayland_eglstream",
            Warning::FlipEventNotification => "WARNING! EGL page flip event notification not supported: has_egl_output_drm_flip_event",
        }
    }
}

/// An acceleration endpoint with the device file it reported; `None` where
/// it reported none.
#[derive(Debug)]
pub struct Endpoint {
    pub device: EGLDevice,
    pub device_file: Option<String>,
}

/// Whether the endpoint reported the device file `filename`.
pub open spec fn belongs_to(endpoint: Endpoint, filename: Seq<char>) -> bool {
    endpoint.device_file is Some && endpoint.device_file->0@ == filename
}

/// Whether `endpoints[i]` is the first endpoint of the device file.
pub open spec fn is_first_of_file(endpoints: Seq<Endpoint>, filename: Seq<char>, i: int) -> bool {
    &&& 0 <= i < endpoints.len()
    &&& belongs_to(endpoints[i], filename)
    &&& forall|j: int| 0 <= j < i ==> !belongs_to(#[trigger] endpoints[j], filename)
}

/// Whether any endpoint reported the device file.
pub open spec fn some_belongs_to(endpoints: Seq<Endpoint>, filename: Seq<char>) -> bool {
    exists|i: int| 0 <= i < endpoints.len() && belongs_to(#[trigger] endpoints[i], filename)
}

/// The complaint that no endpoint belongs to the device file.
pub open spec fn not_found_text(filename: Seq<char>) -> Seq<char> {
    "Device \""@ + filename + "\" not found"@
}

/// Whether `r` is what the search for the endpoint of a device file owes:
/// the first endpoint that reported the file; a failure of its own where
/// there is no endpoint at all.
pub open spec fn is_search(
    r: Result<EGLDevice, EGLError>,
    endpoints: Seq<Endpoint>,
    filename: Seq<char>,
    code: int,
) -> bool {
    if endpoints.len() == 0 {
        fails_with(r, EGLErrorKind::NoEndpoints, "No EGLDevice found"@, code)
    } else if some_belongs_to(endpoints, filename) {
        r is Ok && exists|i: int|
            is_first_of_file(endpoints, filename, i) && r->Ok_0 == (#[trigger] endpoints[i]).device
    } else {
        fails_with(r, EGLErrorKind::DeviceNotFound, not_found_text(filename), code)
    }
}

/// The endpoint of the opened device: the first one that reported the
/// device file `filename`, compared character by character.
#[verifier::loop_isolation(false)]
pub fn find_egldevice(filename: &str, endpoints: &Vec<Endpoint>, code: EGLint) -> (r: Result<
    EGLDevice,
    EGLError,
>)
    ensures
        is_search(r, endpoints@, filename@, code as int),
{
    if endpoints.len() == 0 {
        return Err(EGLError::new(EGLErrorKind::NoEndpoints, "No EGLDevice found", code));
    }
    let mut i: usize = 0;
    while i < endpoints.len()
        invariant
            i <= endpoints@.len(),
            forall|j: int| 0 <= j < i ==> !belongs_to(#[trigger] endpoints@[j], filename@),
        decreases endpoints@.len() - i,
    {
        let matches = match &endpoints[i].device_file {
            Some(file) => file.as_str().eq(filename),
            None => false,
        };
        if matches {
            return Ok(endpoints[i].device);
        }
        i = i + 1;
    }
    let mut message = String::from_str("Device \"");
    message.append(filename);
    message.append("\" not found");
    Err(EGLError::with_message(EGLErrorKind::DeviceNotFound, message, code))
}

/// The first endpoint of all, for a caller that does not care which.
pub fn first_drm_device_available(devices: &Vec<EGLDevice>, code: EGLint) -> (r: Result<
    EGLDevice,
    EGLError,
>)
    ensures
        devices@.len() > 0 ==> r == Ok::<EGLDevice, EGLError>(devices@[0]),
        devices@.len() == 0 ==> fails_with(
            r,
            EGLErrorKind::NoEndpoints,
            "No EGLDevice found"@,
            code as int,
        ),
{
    if devices.len() > 0 {
        Ok(devices[0])
    } else {
        Err(EGLError::new(EGLErrorKind::NoEndpoints, "No EGLDevice found", code))
    }
}

/// The renderer that presents through hardware streams.
#[derive(Debug)]
pub struct EGLRenderer {
    egl_device: EGLDevice,
    display: EGLDisplay,
    egl_config: EGLConfig,
    use_eglstream: bool,
    capabilities: Capabilities,
}

/// Whether `r` is what the construction of a renderer owes for these
/// extension sets and entry points: a refusal that lists every mandatory
/// capability that is not available; else a refusal for want of a
/// surfaceless context; else a renderer.
pub open spec fn is_construction(
    r: Result<Box<EGLRenderer>, EGLError>,
    display: Set<Seq<char>>,
    client: Set<Seq<char>>,
    loaded: Set<Seq<char>>,
    code: int,
) -> bool {
    let missing = lacking(mandatory_capabilities(), display, client, loaded);
    if missing.len() > 0 {
        fails_with(r, EGLErrorKind::CapabilityMissing, refusal_text(missing), code)
    } else if !available(Capability::SurfacelessContext, display, client, loaded) {
        fails_with(
            r,
            EGLErrorKind::CapabilityMissing,
            "renderer.has_surfaceless_context is mandatory for the moment"@,
            code,
        )
    } else {
        r is Ok && forall|capability: Capability|
            r->Ok_0.has(capability) == #[trigger] available(capability, display, client, loaded)
    }
}

/// Whether `part` stands somewhere in `whole`, in one piece.
pub open spec fn occurs_in(part: Seq<char>, whole: Seq<char>) -> bool {
    exists|at: int|
        0 <= at && at + part.len() <= whole.len() && #[trigger] whole.subrange(
            at,
            at + part.len(),
        ) == part
}

/// The text of a refusal holds the name of each capability that it is
/// given for.
pub proof fn refusal_names_each(missing: Seq<Capability>, i: int)
    requires
        0 <= i < missing.len(),
    ensures
        occurs_in(flag_name(missing[i]), refusal_text(missing)),
    decreases missing.len(),
{
    let name = flag_name(missing[i]);
    let front = refusal_text(missing.drop_last());
    let whole = refusal_text(missing);
    let lead = front + "\n                "@;
    if i == missing.len() - 1 {
        let at = lead.len() as int;
        assert(whole.subrange(at, at + name.len()) =~= name);
    } else {
        refusal_names_each(missing.drop_last(), i);
        let at = choose|at: int|
            0 <= at && at + name.len() <= front.len() && #[trigger] front.subrange(
                at,
                at + name.len(),
            ) == name;
        assert(whole.subrange(at, at + name.len()) =~= front.subrange(at, at + name.len()));
    }
}

/// A renderer is refused as soon as one mandatory capability is not
/// available, and the refusal lists that capability among the missing ones.
pub proof fn missing_capability_refuses(
    r: Result<Box<EGLRenderer>, EGLError>,
    display: Set<Seq<char>>,
    client: Set<Seq<char>>,
    loaded: Set<Seq<char>>,
    code: int,
    capability: Capability,
)
    requires
        is_construction(r, display, client, loaded, code),
        is_mandatory(capability),
        !available(capability, display, client, loaded),
    ensures
        lacking(mandatory_capabilities(), display, client, loaded).contains(capability),
        fails_with(
            r,
            EGLErrorKind::CapabilityMissing,
            refusal_text(lacking(mandatory_capabilities(), display, client, loaded)),
            code,
        ),
        occurs_in(flag_name(capability), r->Err_0@.message),
{
    lemma_mandatory_list(capability);
    lemma_lacking(mandatory_capabilities(), display, client, loaded, capability);
    let missing = lacking(mandatory_capabilities(), display, client, loaded);
    let i = choose|i: int| 0 <= i < missing.len() && missing[i] == capability;
    refusal_names_each(missing, i);
}

/// A renderer is granted whenever the mandatory capabilities and the
/// surfaceless context are available, whatever else is missing.
pub proof fn optional_capabilities_do_not_refuse(
    r: Result<Box<EGLRenderer>, EGLError>,
    display: Set<Seq<char>>,
    client: Set<Seq<char>>,
    loaded: Set<Seq<char>>,
    code: int,
)
    requires
        is_construction(r, display, client, loaded, code),
        forall|capability: Capability|
            is_mandatory(capability) ==> #[trigger] available(capability, display, client, loaded),
        available(Capability::SurfacelessContext, display, client, loaded),
    ensures
        r is Ok,
{
    let missing = lacking(mandatory_capabilities(), display, client, loaded);
    if missing.len() > 0 {
        let capability = missing[0];
        lemma_lacking(mandatory_capabilities(), display, client, loaded, capability);
        lemma_mandatory_list(capability);
    }
}

/// Where exactly one endpoint reported the device file, that endpoint is
/// the one found; where none did, the search fails and says that the device
/// was not found.
pub proof fn only_endpoint_is_found(
    r: Result<EGLDevice, EGLError>,
    endpoints: Seq<Endpoint>,
    filename: Seq<char>,
    code: int,
    i: int,
)
    requires
        is_search(r, endpoints, filename, code),
        0 <= i < endpoints.len(),
    ensures
        belongs_to(endpoints[i], filename) && (forall|j: int|
            0 <= j < endpoints.len() && j != i ==> !belongs_to(endpoints[j], filename)) ==> r
            == Ok::<EGLDevice, EGLError>(endpoints[i].device),
        (forall|j: int| 0 <= j < endpoints.len() ==> !belongs_to(endpoints[j], filename))
            ==> fails_with(r, EGLErrorKind::DeviceNotFound, not_found_text(filename), code),
{
}

fn mandatory_list() -> (list: Vec<Capability>)
    ensures
        list@ == mandatory_capabilities(),
{
    let mut list: Vec<Capability> = Vec::new();
    list.push(Capability::OutputBase);
    list.push(Capability::OutputDrm);
    list.push(Capability::Stream);
    list.push(Capability::StreamProducerEglsurface);
    list.push(Capability::StreamConsumerEgloutput);
    list.push(Capability::StreamAttrib);
    list.push(Capability::StreamAcquireMode);
    list
}

fn refusal_message(missing: &Vec<Capability>) -> (message: String)
    ensures
        message@ == refusal_text(missing@),
{
    let mut message = String::from_str("following required extensions not supported:");
    let mut k: usize = 0;
    while k < missing.len()
        invariant
            k <= missing@.len(),
            message@ == refusal_text(missing@.subrange(0, k as int)),
        decreases missing@.len() - k,
    {
        let ghost before = missing@.subrange(0, k as int);
        let ghost after = missing@.subrange(0, k + 1);
        assert(after.drop_last() =~= before);
        message.append("\n                ");
        message.append(missing[k].name());
        message.append(": false");
        k = k + 1;
    }
    assert(missing@.subrange(0, k as int) =~= missing@);
    message
}

impl EGLRenderer {
    /// The endpoint that the renderer draws on.
    pub closed spec fn device(&self) -> EGLDevice {
        self.egl_device
    }

    /// The handle of the display connection that the renderer owns.
    pub closed spec fn display_handle(&self) -> usize {
        self.display.handle()
    }

    /// The configuration of the display connection.
    pub closed spec fn config(&self) -> EGLConfig {
        self.egl_config
    }

    /// The capability record.
    pub closed spec fn flags(&self) -> Capabilities {
        self.capabilities
    }

    /// The flag of `capability`.
    pub open spec fn has(&self, capability: Capability) -> bool {
        self.flags().has(capability)
    }

    /// Builds the renderer of an initialised display connection, or
    /// refuses. `display_extensions` and `client_extensions` are the
    /// extension sets of the display and of the EGL client library, `loaded`
    /// the entry points that were resolved, and `code` the error state of
    /// the EGL library, for the refusal.
    pub fn new(
        egl_device: EGLDevice,
        display: EGLDisplay,
        egl_config: EGLConfig,
        display_extensions: &Extensions,
        client_extensions: &Extensions,
        loaded: &EntryPoints,
        code: EGLint,
    ) -> (r: Result<Box<EGLRenderer>, EGLError>)
        ensures
            is_construction(
                r,
                display_extensions@,
                client_extensions@,
                loaded@,
                code as int,
            ),
            r is Ok ==> r->Ok_0.device() == egl_device && r->Ok_0.display_handle()
                == display.handle() && r->Ok_0.config() == egl_config,
    {
        let capabilities = Capabilities::negotiate(display_extensions, client_extensions, loaded);
        let mandatory = mandatory_list();
        let mut missing: Vec<Capability> = Vec::new();
        let mut i: usize = 0;
        while i < mandatory.len()
            invariant
                i <= mandatory@.len(),
                forall|capability: Capability|
                    capabilities.has(capability) == #[trigger] available(
                        capability,
                        display_extensions@,
                        client_extensions@,
                        loaded@,
                    ),
                missing@ == lacking(
                    mandatory@.subrange(0, i as int),
                    display_extensions@,
                    client_extensions@,
                    loaded@,
                ),
            decreases mandatory@.len() - i,
        {
            let ghost before = mandatory@.subrange(0, i as int);
            let ghost after = mandatory@.subrange(0, i + 1);
            assert(after.drop_last() =~= before);
            if !capabilities.get(mandatory[i]) {
                missing.push(mandatory[i]);
            }
            i = i + 1;
        }
        assert(mandatory@.subrange(0, i as int) =~= mandatory@);
        if missing.len() > 0 {
            return Err(
                EGLError::with_message(
                    EGLErrorKind::CapabilityMissing,
                    refusal_message(&missing),
                    code,
                ),
            );
        }
        if !capabilities.get(Capability::SurfacelessContext) {
            return Err(
                EGLError::new(
                    EGLErrorKind::CapabilityMissing,
                    "renderer.has_surfaceless_context is mandatory for the moment",
                    code,
                ),
            );
        }
        Ok(Box::new(EGLRenderer { egl_device, display, egl_config, use_eglstream: true, capabilities }))
    }

    /// The display connection of the renderer.
    pub fn display(&self) -> (display: &EGLDisplay)
        ensures
            display.handle() == self.display_handle(),
    {
        &self.display
    }

    /// The endpoint that the renderer draws on.
    pub fn egl_device(&self) -> (device: EGLDevice)
        ensures
            device == self.device(),
    {
        self.egl_device
    }

    /// The configuration of the display connection.
    pub fn egl_config(&self) -> (config: EGLConfig)
        ensures
            config == self.config(),
    {
        self.egl_config
    }

    /// Whether the renderer has `capability`.
    pub fn supports(&self, capability: Capability) -> (b: bool)
        ensures
            b == self.has(capability),
    {
        self.capabilities.get(capability)
    }

    /// What the renderer goes without, in the order in which it says so.
    pub fn warnings(&self) -> (list: Vec<Warning>)
        ensures
            list@ == warned(all_warnings(), self.flags()),
    {
        let mut all: Vec<Warning> = Vec::new();
        all.push(Warning::BufferAge);
        all.push(Warning::SwapBuffersWithDamage);
        all.push(Warning::NativeFenceSync);
        all.push(Warning::PlatformBase);
        all.push(Warning::ClientFramePresentation);
        all.push(Warning::FlipEventNotification);
        assert(all@ =~= all_warnings());
        let mut list: Vec<Warning> = Vec::new();
        let mut i: usize = 0;
        while i < all.len()
            invariant
                i <= all@.len(),
                list@ == warned(all@.subrange(0, i as int), self.flags()),
            decreases all@.len() - i,
        {
            let ghost before = all@.subrange(0, i as int);
            let ghost after = all@.subrange(0, i + 1);
            assert(after.drop_last() =~= before);
            if all[i].applies(&self.capabilities) {
                list.push(all[i]);
            }
            i = i + 1;
        }
        assert(all@.subrange(0, i as int) =~= all@);
        list
    }

    /// The image behind the handle that image creation on the renderer's
    /// display returned; the null handle is a failure.
    pub fn create_image<'display>(&'display self, raw: EGLImageKHR, code: EGLint) -> (r: Result<
        Box<Image<'display>>,
        EGLError,
    >)
        ensures
            raw != NO_IMAGE ==> r is Ok && r->Ok_0.handle() == raw && r->Ok_0.display().handle()
                == self.display_handle(),
            raw == NO_IMAGE ==> fails_with(
                r,
                EGLErrorKind::Other,
                creation_failed_text(self.display_handle()),
                code as int,
            ),
    {
        Image::new(&self.display, raw, code)
    }

    /// Reads the answer to binding the display to a Wayland display.
    pub fn bind_display(&self, bound: bool, code: EGLint) -> (r: Result<(), EGLError>)
        ensures
            bound ==> r is Ok,
            !bound ==> fails_with(
                r,
                EGLErrorKind::Other,
                "could not bind egl display to wayland display"@,
                code as int,
            ),
    {
        if bound {
            Ok(())
        } else {
            Err(EGLError::from_str("could not bind egl display to wayland display", code))
        }
    }

    /// Reads the answer to unbinding the display from a Wayland display.
    pub fn unbind_display(&self, unbound: bool, code: EGLint) -> (r: Result<(), EGLError>)
        ensures
            unbound ==> r is Ok,
            !unbound ==> fails_with(
                r,
                EGLErrorKind::Other,
                "could not unbindegl display to wayland display"@,
                code as int,
            ),
    {
        if unbound {
            Ok(())
        } else {
            Err(EGLError::from_str("could not unbindegl display to wayland display", code))
        }
    }

    /// Buffers cannot be queried yet.
    pub fn query_buffer(&self, code: EGLint) -> (r: Result<(), EGLError>)
        ensures
            fails_with(
                r,
                EGLErrorKind::Unsupported,
                "EGLRenderer::query_buffer() not implemented"@,
                code as int,
            ),
    {
        Err(
            EGLError::new(
                EGLErrorKind::Unsupported,
                "EGLRenderer::query_buffer() not implemented",
                code,
            ),
        )
    }

    /// The devices behind the handles that the EGL library listed when
    /// asked for `count` of them; `None` where the call failed.
    pub fn get_devices(count: EGLint, listed: Option<Vec<EGLDeviceEXT>>, code: EGLint) -> (r: Result<
        Vec<EGLDevice>,
        EGLError,
    >)
        ensures
            is_listing(r, count, listed, code as int),
    {
        get_egl_devices(count, listed, code)
    }

    /// The device file of the renderer's endpoint, from the two strings
    /// that the EGL library gave for it: its extensions and its DRM device
    /// file, each `None` where the library gave none.
    pub fn get_drm_device_file(
        &self,
        device_extensions: Option<&str>,
        device_file: Option<&str>,
        code: EGLint,
    ) -> (r: Result<String, EGLError>)
        ensures
            is_device_file(r, self.device(), device_extensions, device_file, code as int),
    {
        self.egl_device.get_drm_device_file(device_extensions, device_file, code)
    }

    /// The line that reports the error state `code` of the EGL library.
    pub fn print_egl_error_state(code: EGLint) -> (line: String)
        ensures
            line@ == error_state_text(code as int),
    {
        egl_error_state(code)
    }

    /// Ends the renderer: hands out the handle of its display connection
    /// for the caller to terminate, and with it the last use of this value.
    pub fn teardown(self) -> (display: usize)
        ensures
            display == self.display_handle(),
    {
        self.display.terminate()
    }
}

} // verus!
