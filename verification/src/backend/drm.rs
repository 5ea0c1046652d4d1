//! The DRM backend: which GPU it runs on, what it asks of the device once
//! it is open, and the order in which it comes up.

use vstd::prelude::*;
use vstd::string::*;
use crate::backend::Backend;
use crate::compositor::Compositor;
use crate::egl::egl_error::{EGLError, EGLErrorKind, error_description};
use crate::egl::renderer::EGLRenderer;
use crate::launcher::logind::{
    LauncherError,
    LauncherErrorKind,
    LauncherView,
    LogindLauncher,
    TeardownStep,
    after_teardown,
    is_teardown,
};
use crate::renderer::RendererKind;
use crate::sys::{monotonic_clock, read_write_access, realtime_clock};
use crate::text::{decimal, push_decimal};

verus! {

/// The classes of failure of the backend. All of them end the start-up;
/// none is tried again.
#[derive(Debug, Clone, Copy, PartialEq, Eq, Structural)]
pub enum ErrorClass {
    /// The enumeration of devices or of extensions failed.
    EnumerationError,
    /// No GPU, no endpoint or no configuration matches.
    NotFound,
    /// The broker holds a device already.
    AlreadyOpen,
    /// A call to the session manager failed.
    TransportError,
    /// A mandatory extension is absent.
    CapabilityMissing,
    /// A display, its initialisation or the negotiation failed.
    InitializationError,
}

/// A failure of the backend, with the text that is shown for it.
#[derive(Debug)]
pub struct DRMBackendError {
    class: ErrorClass,
    description: String,
}

/// The mathematical content of a [`DRMBackendError`].
pub struct DRMBackendErrorView {
    pub class: ErrorClass,
    pub description: Seq<char>,
}

impl View for DRMBackendError {
    type V = DRMBackendErrorView;

    closed spec fn view(&self) -> DRMBackendErrorView {
        DRMBackendErrorView { class: self.class, description: self.description@ }
    }
}

/// Whether `r` is the failure of the given class and description.
pub open spec fn failed<T>(r: Result<T, DRMBackendError>, class: ErrorClass, description: Seq<char>)
    -> bool {
    r is Err && r->Err_0@ == (DRMBackendErrorView { class, description })
}

/// The class of a failure of the negotiation.
pub open spec fn class_of_egl(kind: EGLErrorKind) -> ErrorClass {
    match kind {
        EGLErrorKind::EnumerationFailed => ErrorClass::EnumerationError,
        EGLErrorKind::NoEndpoints
        | EGLErrorKind::DeviceNotFound
        | EGLErrorKind::NoConfigs
        | EGLErrorKind::NoMatchingConfig => ErrorClass::NotFound,
        EGLErrorKind::CapabilityMissing | EGLErrorKind::Unsupported => ErrorClass::CapabilityMissing,
        EGLErrorKind::InitializationFailed | EGLErrorKind::Other => ErrorClass::InitializationError,
    }
}

/// The class of a failure of the session broker.
pub open spec fn class_of_launcher(kind: LauncherErrorKind) -> ErrorClass {
    match kind {
        LauncherErrorKind::AlreadyOpen => ErrorClass::AlreadyOpen,
        LauncherErrorKind::Transport | LauncherErrorKind::BadReply => ErrorClass::TransportError,
        LauncherErrorKind::VtMismatch
        | LauncherErrorKind::NotCharacterDevice
        | LauncherErrorKind::Descriptor => ErrorClass::InitializationError,
    }
}

impl DRMBackendError {
    /// A failure of the given class and description.
    pub fn new(class: ErrorClass, description: String) -> (e: Self)
        ensures
            e@ == (DRMBackendErrorView { class, description: description@ }),
    {
        DRMBackendError { class, description }
    }

    fn of(class: ErrorClass, description: &str) -> (e: Self)
        ensures
            e@ == (DRMBackendErrorView { class, description: description@ }),
    {
        DRMBackendError { class, description: description.to_owned() }
    }

    /// The failure to enumerate the devices, with the words of the
    /// enumerator.
    pub fn enumeration(detail: &str) -> (e: Self)
        ensures
            e@ == (DRMBackendErrorView {
                class: ErrorClass::EnumerationError,
                description: detail@,
            }),
    {
        DRMBackendError::of(ErrorClass::EnumerationError, detail)
    }

    /// The failure of the backend that a failure of the negotiation is.
    pub fn from_egl(error: &EGLError) -> (e: Self)
        ensures
            e@ == (DRMBackendErrorView {
                class: class_of_egl(error@.kind),
                description: error_description(error@),
            }),
    {
        let class = match error.kind() {
            EGLErrorKind::EnumerationFailed => ErrorClass::EnumerationError,
            EGLErrorKind::NoEndpoints => ErrorClass::NotFound,
            EGLErrorKind::DeviceNotFound => ErrorClass::NotFound,
            EGLErrorKind::NoConfigs => ErrorClass::NotFound,
            EGLErrorKind::NoMatchingConfig => ErrorClass::NotFound,
            EGLErrorKind::CapabilityMissing => ErrorClass::CapabilityMissing,
            EGLErrorKind::Unsupported => ErrorClass::CapabilityMissing,
            EGLErrorKind::InitializationFailed => ErrorClass::InitializationError,
            EGLErrorKind::Other => ErrorClass::InitializationError,
        };
        DRMBackendError { class, description: error.description() }
    }

    /// The failure of the backend that a failure of the session broker is.
    pub fn from_launcher(error: &LauncherError) -> (e: Self)
        ensures
            e@ == (DRMBackendErrorView {
                class: class_of_launcher(error@.kind),
                description: error@.message,
            }),
    {
        let class = match error.kind() {
            LauncherErrorKind::AlreadyOpen => ErrorClass::AlreadyOpen,
            LauncherErrorKind::Transport => ErrorClass::TransportError,
            LauncherErrorKind::BadReply => ErrorClass::TransportError,
            LauncherErrorKind::VtMismatch => ErrorClass::InitializationError,
            LauncherErrorKind::NotCharacterDevice => ErrorClass::InitializationError,
            LauncherErrorKind::Descriptor => ErrorClass::InitializationError,
        };
        DRMBackendError { class, description: error.message().to_owned() }
    }

    pub fn class(&self) -> (class: ErrorClass)
        ensures
            class == self@.class,
    {
        self.class
    }

    /// The text that is shown for the failure.
    pub fn description(&self) -> (text: &str)
        ensures
            text@ == self@.description,
    {
        self.description.as_str()
    }
}

/// The opened GPU device node: its descriptor and the path it was opened
/// from.
#[derive(Debug)]
pub struct DRMDevice {
    fd: i32,
    filename: String,
}

impl DRMDevice {
    /// The descriptor of the device.
    pub closed spec fn descriptor(&self) -> i32 {
        self.fd
    }

    /// The path that the device was opened from.
    pub closed spec fn path(&self) -> Seq<char> {
        self.filename@
    }

    /// The device with the descriptor `fd`, opened from `filename`.
    pub fn new(fd: i32, filename: String) -> (device: DRMDevice)
        ensures
            device.descriptor() == fd,
            device.path() == filename@,
    {
        DRMDevice { fd, filename }
    }

    /// The descriptor of the device.
    pub fn rawfd(&self) -> (fd: i32)
        ensures
            fd == self.descriptor(),
    {
        self.fd
    }

    /// The path that the device was opened from.
    pub fn dev_path(&self) -> (path: &str)
        ensures
            path@ == self.path(),
    {
        self.filename.as_str()
    }
}

/// An ancestor of a device in the kernel's device tree: the subsystem it
/// belongs to and its `boot_vga` attribute, each `None` where it has none.
#[derive(Debug)]
pub struct Ancestor {
    pub subsystem: Option<String>,
    pub boot_vga: Option<String>,
}

/// A GPU that the kernel enumerated: the seat it declares, its ancestors
/// from the nearest to the farthest, and its device node.
#[derive(Debug)]
pub struct Candidate {
    pub seat: Option<String>,
    pub ancestors: Vec<Ancestor>,
    pub devnode: Option<String>,
}

/// The seat of a device: the one it declares, or `seat0`.
pub open spec fn seat_of(candidate: Candidate) -> Seq<char> {
    match candidate.seat {
        Some(seat) => seat@,
        None => "seat0"@,
    }
}

/// Whether the ancestor is a PCI device.
pub open spec fn is_pci(ancestor: Ancestor) -> bool {
    ancestor.subsystem is Some && ancestor.subsystem->0@ == "pci"@
}

/// Whether the ancestor is the device that the firmware booted on.
pub open spec fn has_boot_vga(ancestor: Ancestor) -> bool {
    ancestor.boot_vga is Some && ancestor.boot_vga->0@ == "1"@
}

/// Whether the nearest PCI ancestor of the device is the one that the
/// firmware booted on.
pub open spec fn is_boot_gpu(candidate: Candidate) -> bool {
    exists|i: int|
        0 <= i < candidate.ancestors@.len() && #[trigger] is_pci(candidate.ancestors@[i])
            && has_boot_vga(candidate.ancestors@[i]) && forall|j: int|
            0 <= j < i ==> !is_pci(#[trigger] candidate.ancestors@[j])
}

/// Whether the device is a primary GPU of `seat`.
pub open spec fn is_primary(candidate: Candidate, seat: Seq<char>) -> bool {
    seat_of(candidate) == seat && is_boot_gpu(candidate)
}

/// Whether `candidates[i]` is the first primary GPU of `seat`.
pub open spec fn is_first_primary(candidates: Seq<Candidate>, seat: Seq<char>, i: int) -> bool {
    &&& 0 <= i < candidates.len()
    &&& is_primary(candidates[i], seat)
    &&& forall|j: int| 0 <= j < i ==> !is_primary(#[trigger] candidates[j], seat)
}

/// Whether any candidate is a primary GPU of `seat`.
pub open spec fn some_primary(candidates: Seq<Candidate>, seat: Seq<char>) -> bool {
    exists|i: int| 0 <= i < candidates.len() && is_primary(#[trigger] candidates[i], seat)
}

/// Whether `r` is what discovery owes for the device `candidate`, once it
/// is the one chosen.
pub open spec fn is_node_of(r: Result<String, DRMBackendError>, candidate: Candidate) -> bool {
    match candidate.devnode {
        Some(node) => r is Ok && r->Ok_0@ == node@,
        None => failed(r, ErrorClass::NotFound, "Error getting device devnode!"@),
    }
}

/// Whether `r` is what discovery owes for these devices: the device node
/// of the first primary GPU of the seat.
pub open spec fn is_discovery(
    r: Result<String, DRMBackendError>,
    candidates: Seq<Candidate>,
    seat: Seq<char>,
) -> bool {
    if some_primary(candidates, seat) {
        exists|i: int|
            is_first_primary(candidates, seat, i) && is_node_of(r, #[trigger] candidates[i])
    } else {
        failed(r, ErrorClass::NotFound, "No device found!"@)
    }
}

/// Where exactly one device is a primary GPU of the seat, discovery is
/// decided by that device alone, wherever in the enumeration it stands and
/// whatever stands around it.
pub proof fn only_primary_is_chosen(
    r: Result<String, DRMBackendError>,
    candidates: Seq<Candidate>,
    seat: Seq<char>,
    i: int,
)
    requires
        is_discovery(r, candidates, seat),
        0 <= i < candidates.len(),
        is_primary(candidates[i], seat),
        forall|j: int| 0 <= j < candidates.len() && j != i ==> !is_primary(candidates[j], seat),
    ensures
        is_node_of(r, candidates[i]),
{
}

/// A device without a `boot_vga` PCI ancestor, or of another seat, is never
/// chosen: what discovery returns is the node of a primary GPU, and where
/// there is none it fails.
pub proof fn chosen_is_primary(
    r: Result<String, DRMBackendError>,
    candidates: Seq<Candidate>,
    seat: Seq<char>,
)
    requires
        is_discovery(r, candidates, seat),
    ensures
        r is Ok ==> exists|i: int|
            0 <= i < candidates.len() && is_primary(#[trigger] candidates[i], seat)
                && candidates[i].devnode is Some && candidates[i].devnode->0@ == r->Ok_0@,
        !some_primary(candidates, seat) ==> failed(r, ErrorClass::NotFound, "No device found!"@),
{
}

#[verifier::loop_isolation(false)]
fn boot_gpu(candidate: &Candidate) -> (b: bool)
    ensures
        b == is_boot_gpu(*candidate),
{
    let mut i: usize = 0;
    while i < candidate.ancestors.len()
        invariant
            i <= candidate.ancestors@.len(),
            forall|j: int| 0 <= j < i ==> !is_pci(#[trigger] candidate.ancestors@[j]),
        decreases candidate.ancestors@.len() - i,
    {
        let ancestor = &candidate.ancestors[i];
        let pci = match &ancestor.subsystem {
            Some(name) => name.as_str().eq("pci"),
            None => false,
        };
        if pci {
            let boot = match &ancestor.boot_vga {
                Some(value) => value.as_str().eq("1"),
                None => false,
            };
            assert(is_pci(candidate.ancestors@[i as int]));
            return boot;
        }
        i = i + 1;
    }
    false
}

fn primary(candidate: &Candidate, seat: &str) -> (b: bool)
    ensures
        b == is_primary(*candidate, seat@),
{
    let same_seat = match &candidate.seat {
        Some(name) => name.as_str().eq(seat),
        None => "seat0".eq(seat),
    };
    same_seat && boot_gpu(candidate)
}

/// The device node of the primary GPU of `seat` among the enumerated
/// devices: the first, in the order of enumeration, whose nearest PCI
/// ancestor is the one that the firmware booted on.
#[verifier::loop_isolation(false)]
pub fn find_primary_gpu(candidates: &Vec<Candidate>, seat: &str) -> (r: Result<
    String,
    DRMBackendError,
>)
    ensures
        is_discovery(r, candidates@, seat@),
{
    let mut i: usize = 0;
    while i < candidates.len()
        invariant
            i <= candidates@.len(),
            forall|j: int| 0 <= j < i ==> !is_primary(#[trigger] candidates@[j], seat@),
        decreases candidates@.len() - i,
    {
        if primary(&candidates[i], seat) {
            return match &candidates[i].devnode {
                Some(node) => Ok(node.clone()),
                None => Err(
                    DRMBackendError::of(ErrorClass::NotFound, "Error getting device devnode!"),
                ),
            };
        }
        i = i + 1;
    }
    Err(DRMBackendError::of(ErrorClass::NotFound, "No device found!"))
}

/// The subsystem of the kernel that GPUs belong to.
pub const GPU_SUBSYSTEM: &'static str = "drm";

/// The pattern of the names that the kernel gives to GPUs.
pub const GPU_NAME_PATTERN: &'static str = "card[0-9]*";

/// The seat that the backend runs on.
pub const BACKEND_SEAT: &'static str = "seat0";

/// The side of a cursor plane where the device does not tell.
pub const DEFAULT_CURSOR_SIZE: u64 = 64;

/// The clock for presentation times, from the device's answer to whether
/// its timestamps are monotonic: the monotonic clock where it says so, the
/// realtime clock where it says otherwise or does not answer.
pub fn presentation_clock(monotonic: &Result<u64, i32>) -> (id: i32)
    ensures
        id == if monotonic == Ok::<u64, i32>(1) {
            1i32
        } else {
            0i32
        },
{
    match monotonic {
        Ok(capability) => {
            if *capability == 1 {
                monotonic_clock()
            } else {
                realtime_clock()
            }
        },
        Err(_) => realtime_clock(),
    }
}

/// The text of the warning about a device that did not answer.
pub open spec fn capability_warning_text(status: i32) -> Seq<char> {
    "drm get capabilities failed with return code "@ + decimal(status as int)
}

/// The warning that goes with the choice of clock: one where the device did
/// not answer, none else.
pub fn clock_warning(monotonic: &Result<u64, i32>) -> (warning: Option<String>)
    ensures
        match *monotonic {
            Ok(_) => warning is None,
            Err(status) => warning is Some && warning->0@ == capability_warning_text(status),
        },
{
    match monotonic {
        Ok(_) => None,
        Err(status) => {
            let mut text = String::from_str("drm get capabilities failed with return code ");
            push_decimal(&mut text, *status as i64);
            Some(text)
        },
    }
}

/// A side of the cursor plane, from the device's answer: what it says, or
/// the default where it does not answer.
pub fn cursor_dimension(capability: &Result<u64, i32>) -> (size: u64)
    ensures
        size == match *capability {
            Ok(value) => value,
            Err(_) => DEFAULT_CURSOR_SIZE,
        },
{
    match capability {
        Ok(value) => *value,
        Err(_) => DEFAULT_CURSOR_SIZE,
    }
}

/// A stage of the backend's start-up, in the order in which they are gone
/// through.
#[derive(Debug, Clone, Copy, PartialEq, Eq, Structural)]
pub enum Stage {
    /// Finding the primary GPU of the seat.
    Discover,
    /// Identifying the session.
    Session,
    /// Taking control of the session.
    Connect,
    /// Opening the device through the session broker.
    OpenDevice,
    /// Asking the device for its clock.
    ProbeClock,
    /// Reading the presentation clock.
    TestClock,
    /// Asking the device for the size of its cursor plane.
    ProbeCursor,
    /// Negotiating the render surface and building the renderer.
    Renderer,
    /// The backend is up.
    Ready,
    /// The start-up has failed.
    Failed,
}

/// Whether the stage only asks for advice: its failure is made up for by a
/// default and never ends the start-up.
pub open spec fn is_advisory(stage: Stage) -> bool {
    stage is ProbeClock || stage is ProbeCursor
}

/// The stage that follows `stage` where it went well.
pub open spec fn successor(stage: Stage) -> Stage {
    match stage {
        Stage::Discover => Stage::Session,
        Stage::Session => Stage::Connect,
        Stage::Connect => Stage::OpenDevice,
        Stage::OpenDevice => Stage::ProbeClock,
        Stage::ProbeClock => Stage::TestClock,
        Stage::TestClock => Stage::ProbeCursor,
        Stage::ProbeCursor => Stage::Renderer,
        Stage::Renderer => Stage::Ready,
        Stage::Ready => Stage::Ready,
        Stage::Failed => Stage::Failed,
    }
}

/// The stage that follows `stage`, given whether it went well: the next
/// one, but `Failed` after a failure that is not made up for.
pub open spec fn following(stage: Stage, succeeded: bool) -> Stage {
    if succeeded || is_advisory(stage) || stage is Ready {
        successor(stage)
    } else {
        Stage::Failed
    }
}

impl Stage {
    /// Whether the stage only asks for advice.
    pub fn advisory(self) -> (b: bool)
        ensures
            b == is_advisory(self),
    {
        match self {
            Stage::ProbeClock => true,
            Stage::ProbeCursor => true,
            _ => false,
        }
    }

    /// The stage that follows, given whether this one went well. No stage
    /// is gone through twice.
    pub fn next(self, succeeded: bool) -> (stage: Stage)
        ensures
            stage == following(self, succeeded),
            !(self is Ready || self is Failed) ==> stage != self,
            is_advisory(self) ==> !(stage is Failed),
    {
        let onward = match self {
            Stage::Discover => Stage::Session,
            Stage::Session => Stage::Connect,
            Stage::Connect => Stage::OpenDevice,
            Stage::OpenDevice => Stage::ProbeClock,
            Stage::ProbeClock => Stage::TestClock,
            Stage::TestClock => Stage::ProbeCursor,
            Stage::ProbeCursor => Stage::Renderer,
            Stage::Renderer => Stage::Ready,
            Stage::Ready => Stage::Ready,
            Stage::Failed => Stage::Failed,
        };
        if succeeded || self.advisory() {
            onward
        } else {
            match self {
                Stage::Ready => Stage::Ready,
                _ => Stage::Failed,
            }
        }
    }
}

/// The DRM backend, with all that it owns.
#[derive(Debug)]
pub struct DRMBackend {
    use_pixman: bool,
    use_egldevice: bool,
    drm_device: DRMDevice,
    interface: LogindLauncher,
    cursor_with: u64,
    cursor_height: u64,
    compositor: Compositor,
    renderer: Box<EGLRenderer>,
}

impl Backend for DRMBackend {

}

impl DRMBackend {
    /// The descriptor of the backend's device.
    pub closed spec fn device_descriptor(&self) -> i32 {
        self.drm_device.descriptor()
    }

    /// The width and the height of the cursor plane.
    pub closed spec fn cursor(&self) -> (u64, u64) {
        (self.cursor_with, self.cursor_height)
    }

    /// The session broker of the backend.
    pub closed spec fn broker(&self) -> LauncherView {
        self.interface@
    }

    /// The handle of the display connection of the backend's renderer.
    pub closed spec fn display_handle(&self) -> usize {
        self.renderer.display_handle()
    }

    /// The id of the presentation clock.
    pub closed spec fn clock(&self) -> i32 {
        self.compositor.clock()
    }

    /// The access that the device is opened with: reading and writing.
    pub fn open_flags() -> (flags: i32)
        ensures
            flags == 2,
    {
        read_write_access()
    }

    /// The renderer to build for the given preferences. Only the
    /// hardware-stream renderer can be had; the other two are refused.
    pub fn init_egl_renderer(use_pixman: bool, use_egldevice: bool) -> (r: Result<
        RendererKind,
        DRMBackendError,
    >)
        ensures
            use_pixman ==> failed(
                r,
                ErrorClass::InitializationError,
                "PixmanRenderer not supported yet"@,
            ),
            !use_pixman && !use_egldevice ==> failed(
                r,
                ErrorClass::InitializationError,
                "GBMRenderer not supported yet"@,
            ),
            !use_pixman && use_egldevice ==> r == Ok::<RendererKind, DRMBackendError>(
                RendererKind::HardwareStream,
            ),
    {
        if use_pixman {
            Err(DRMBackendError::of(ErrorClass::InitializationError, "PixmanRenderer not supported yet"))
        } else if use_egldevice {
            Ok(RendererKind::HardwareStream)
        } else {
            Err(DRMBackendError::of(ErrorClass::InitializationError, "GBMRenderer not supported yet"))
        }
    }

    /// The backend of an opened device, once every stage of the start-up
    /// went through. `cursor_width` and `cursor_height` are the device's
    /// answers about its cursor plane.
    pub fn new(
        use_pixman: bool,
        use_egldevice: bool,
        drm_device: DRMDevice,
        interface: LogindLauncher,
        cursor_width: &Result<u64, i32>,
        cursor_height: &Result<u64, i32>,
        compositor: Compositor,
        renderer: Box<EGLRenderer>,
    ) -> (backend: Box<DRMBackend>)
        ensures
            backend.device_descriptor() == drm_device.descriptor(),
            backend.broker() == interface@,
            backend.display_handle() == renderer.display_handle(),
            backend.clock() == compositor.clock(),
            backend.cursor().0 == match *cursor_width {
                Ok(value) => value,
                Err(_) => DEFAULT_CURSOR_SIZE,
            },
            backend.cursor().1 == match *cursor_height {
                Ok(value) => value,
                Err(_) => DEFAULT_CURSOR_SIZE,
            },
    {
        Box::new(
            DRMBackend {
                use_pixman,
                use_egldevice,
                drm_device,
                interface,
                cursor_with: cursor_dimension(cursor_width),
                cursor_height: cursor_dimension(cursor_height),
                compositor,
                renderer,
            },
        )
    }

    /// The device of the backend.
    pub fn drm_device(&self) -> (device: &DRMDevice)
        ensures
            device.descriptor() == self.device_descriptor(),
    {
        &self.drm_device
    }

    /// The width and the height of the cursor plane.
    pub fn cursor_size(&self) -> (size: (u64, u64))
        ensures
            size == self.cursor(),
    {
        (self.cursor_with, self.cursor_height)
    }

    /// Takes the backend down. What it owned is handed out to be released,
    /// each thing once: the session broker, which tracks no device any
    /// more, with the steps that give the session back, in their order; and
    /// the handle of the display connection.
    pub fn teardown(self) -> (released: (LogindLauncher, Vec<TeardownStep>, usize))
        ensures
            released.0@ == after_teardown(self.broker()),
            is_teardown(released.1@, self.broker().device_path),
            released.2 == self.display_handle(),
    {
        let mut interface = self.interface;
        let steps = interface.teardown();
        let display = self.renderer.teardown();
        (interface, steps, display)
    }
}

} // verus!
