//! The session broker over logind's bus interface. Nothing here touches the
//! bus: a method says which call to make, the caller makes it, and another
//! method reads the answer.

use vstd::prelude::*;
use vstd::string::*;
use crate::sys::{character_device_bit, file_type_mask, nonblocking_bit};
use crate::text::{decimal, push_decimal};

verus! {

/// The bus name of logind.
pub const DESTINATION: &'static str = "org.freedesktop.login1";

/// What a file-status query told of a device node.
#[derive(Debug, Clone, Copy, PartialEq, Eq, Structural)]
pub struct FileStatus {
    pub mode: u32,
    pub rdev: u64,
}

/// The logged-in session that all calls are made for.
#[derive(Debug)]
pub struct Session {
    pub id: String,
    pub seat: String,
    pub vt: u32,
}

/// The object of logind that a call or a signal belongs to.
#[derive(Debug, Clone, Copy, PartialEq, Eq, Structural)]
pub enum Object {
    /// The manager, at `/org/freedesktop/login1`.
    Manager,
    /// The broker's own session.
    Session,
    /// The seat of the calling process.
    Seat,
}

/// A method call on logind.
#[derive(Debug, Clone, Copy, PartialEq, Eq, Structural)]
pub enum Call {
    TakeControl { force: bool },
    ReleaseControl,
    Activate,
    TakeDevice { major: u32, minor: u32 },
    ReleaseDevice { major: u32, minor: u32 },
    SwitchTo { vt: u32 },
}

/// A signal of logind that the broker subscribes to.
#[derive(Debug, Clone, Copy, PartialEq, Eq, Structural)]
pub enum Signal {
    SessionRemoved,
    PauseDevice,
    ResumeDevice,
    PropertiesChanged,
}

/// One step of connecting.
#[derive(Debug, Clone, Copy, PartialEq, Eq, Structural)]
pub enum ConnectStep {
    Subscribe(Signal),
    Invoke(Call),
}

/// Where the broker stands with the session.
#[derive(Debug, Clone, Copy, PartialEq, Eq, Structural)]
pub enum Phase {
    /// Control of the session has not been taken.
    Unconnected,
    /// The broker controls the session.
    Controlled,
    /// Control of the session was given back.
    Released,
}

/// The states that the broker goes through: from unconnected to
/// controlled, from there to holding a device and back, and at last to
/// released.
#[derive(Debug, Clone, Copy, PartialEq, Eq, Structural)]
pub enum BrokerState {
    Unconnected,
    Controlled,
    DeviceOpen,
    Released,
}

/// Why the broker refused or failed.
#[derive(Debug, Clone, Copy, PartialEq, Eq, Structural)]
pub enum LauncherErrorKind {
    /// The session is on another virtual terminal than the one asked for.
    VtMismatch,
    /// A device is open already: the broker manages one at a time.
    AlreadyOpen,
    /// The path is no character device. This is a mistake of the caller,
    /// not a condition to recover from.
    NotCharacterDevice,
    /// A bus call failed.
    Transport,
    /// The answer to a bus call was not the expected one.
    BadReply,
    /// The flags of a descriptor could not be read or set.
    Descriptor,
}

/// A failure of the broker, with the text that describes it.
#[derive(Debug)]
pub struct LauncherError {
    kind: LauncherErrorKind,
    message: String,
}

/// The mathematical content of a [`LauncherError`].
pub struct LauncherErrorView {
    pub kind: LauncherErrorKind,
    pub message: Seq<char>,
}

impl View for LauncherError {
    type V = LauncherErrorView;

    closed spec fn view(&self) -> LauncherErrorView {
        LauncherErrorView { kind: self.kind, message: self.message@ }
    }
}

/// Whether `r` is the failure of the given kind and message.
pub open spec fn refused<T>(r: Result<T, LauncherError>, kind: LauncherErrorKind, message: Seq<char>)
    -> bool {
    r is Err && r->Err_0@ == (LauncherErrorView { kind, message })
}

/// The major number of a device.
pub open spec fn major_of(rdev: u64) -> u32 {
    ((rdev >> 8) & 0xffff_ffff) as u32
}

/// The minor number of a device.
pub open spec fn minor_of(rdev: u64) -> u32 {
    (rdev & 0xff) as u32
}

/// Whether the file mode `mode` is that of a character device: its
/// file-type bits are exactly those of one.
pub open spec fn is_character_mode(mode: u32) -> bool {
    mode & 0o170000 == 0o20000
}

/// The name of the method that the call invokes.
pub open spec fn member_of(call: Call) -> Seq<char> {
    match call {
        Call::TakeControl { .. } => "TakeControl"@,
        Call::ReleaseControl => "ReleaseControl"@,
        Call::Activate => "Activate"@,
        Call::TakeDevice { .. } => "TakeDevice"@,
        Call::ReleaseDevice { .. } => "ReleaseDevice"@,
        Call::SwitchTo { .. } => "SwitchTo"@,
    }
}

/// The name of the signal.
pub open spec fn signal_member(signal: Signal) -> Seq<char> {
    match signal {
        Signal::SessionRemoved => "SessionRemoved"@,
        Signal::PauseDevice => "PauseDevice"@,
        Signal::ResumeDevice => "ResumeDevice"@,
        Signal::PropertiesChanged => "PropertiesChanged"@,
    }
}

/// The interface that declares the signal.
pub open spec fn signal_interface(signal: Signal) -> Seq<char> {
    match signal {
        Signal::SessionRemoved => "org.freedesktop.login1.Manager"@,
        Signal::PauseDevice => "org.freedesktop.login1.Session"@,
        Signal::ResumeDevice => "org.freedesktop.login1.Session"@,
        Signal::PropertiesChanged => "org.freedesktop.DBus.Properties"@,
    }
}

/// The object that emits the signal.
pub open spec fn signal_object(signal: Signal) -> Object {
    match signal {
        Signal::SessionRemoved => Object::Manager,
        _ => Object::Session,
    }
}

/// The object that the call is made on.
pub open spec fn call_object(call: Call) -> Object {
    match call {
        Call::SwitchTo { .. } => Object::Seat,
        _ => Object::Session,
    }
}

/// The path of an object, for a session with the path `session_path`.
pub open spec fn path_of(object: Object, session_path: Seq<char>) -> Seq<char> {
    match object {
        Object::Manager => "/org/freedesktop/login1"@,
        Object::Session => session_path,
        Object::Seat => "/org/freedesktop/login1/seat/self"@,
    }
}

/// The path of the session `id`.
pub open spec fn session_path(id: Seq<char>) -> Seq<char> {
    "/org/freedesktop/login1/session/"@ + id
}

/// The match rule that subscribes to `signal` on the object at `path`.
pub open spec fn match_rule_text(signal: Signal, path: Seq<char>) -> Seq<char> {
    "type='signal', sender='org.freedesktop.login1', interface='"@ + signal_interface(signal)
        + "', member='"@ + signal_member(signal) + "', path='"@ + path + "'"@
}

/// The steps of connecting, in their order: the four subscriptions, then
/// taking control without force, then activating the session.
pub open spec fn connect_steps() -> Seq<ConnectStep> {
    seq![
        ConnectStep::Subscribe(Signal::SessionRemoved),
        ConnectStep::Subscribe(Signal::PauseDevice),
        ConnectStep::Subscribe(Signal::ResumeDevice),
        ConnectStep::Subscribe(Signal::PropertiesChanged),
        ConnectStep::Invoke(Call::TakeControl { force: false }),
        ConnectStep::Invoke(Call::Activate),
    ]
}

/// The text for a step of connecting that failed with the transport's
/// words `detail`.
pub open spec fn step_failed_text(step: ConnectStep, detail: Seq<char>) -> Seq<char> {
    match step {
        ConnectStep::Subscribe(signal) => "cannot dbus match signal \""@ + signal_member(signal)
            + "\" "@ + detail,
        ConnectStep::Invoke(call) => call_failed_text(call, detail),
    }
}

/// Whether the caller waits for the reply to the call.
pub open spec fn is_awaited(call: Call) -> bool {
    call is TakeControl || call is TakeDevice
}

/// The text for a call that failed. The transport's words `detail` are
/// given where the reply was waited for; a call that is only sent off
/// fails without words.
pub open spec fn call_failed_text(call: Call, detail: Seq<char>) -> Seq<char> {
    if is_awaited(call) {
        "Error sending message \""@ + member_of(call) + "\": "@ + detail
    } else {
        "Error sending message \""@ + member_of(call) + "\""@
    }
}

/// The text that refuses a second device.
pub open spec fn already_open_text(path: Seq<char>) -> Seq<char> {
    "Device "@ + path + " already open"@
}

/// The text that refuses a path that is no character device.
pub open spec fn not_character_device_text(path: Seq<char>) -> Seq<char> {
    "file "@ + path + " is not character device"@
}

/// The text that refuses a session on another virtual terminal.
pub open spec fn vt_mismatch_text(requested: u32, actual: u32) -> Seq<char> {
    "logind: requested VT --tty="@ + decimal(requested as int)
        + " differs from real session VT "@ + decimal(actual as int)
}

/// Whether `bit` is the non-blocking bit of some architecture.
pub open spec fn is_nonblocking_bit(bit: i32) -> bool {
    bit == 0o200 || bit == 0o4000 || bit == 0x4000
}

/// The status flags to set on a descriptor: those it has, and the
/// non-blocking bit `bit` too where the caller's flags hold it. No other
/// flag of the caller is taken over.
pub open spec fn adjusted_flags(current: i32, requested: i32, bit: i32) -> i32 {
    if requested & bit != 0 {
        current | bit
    } else {
        current
    }
}

/// The major number of the device `rdev`.
pub fn major(rdev: u64) -> (n: u32)
    ensures
        n == major_of(rdev),
{
    ((rdev >> 8) & 0xffff_ffff) as u32
}

/// The minor number of the device `rdev`.
pub fn minor(rdev: u64) -> (n: u32)
    ensures
        n == minor_of(rdev),
{
    (rdev & 0xff) as u32
}

/// Whether the file mode `mode` has a bit of `mask`.
pub fn is_type(mode: u32, mask: u32) -> (b: bool)
    ensures
        b == (mode & mask != 0),
{
    (mode & mask) != 0
}

/// Whether the file mode `mode` is that of a character device.
pub fn is_character_device(mode: u32) -> (b: bool)
    ensures
        b == is_character_mode(mode),
{
    mode & file_type_mask() == character_device_bit()
}

/// The status flags to set on a descriptor whose flags are `current`, for
/// a caller that asked for `requested`, where `bit` is the non-blocking bit.
pub fn with_nonblocking(current: i32, requested: i32, bit: i32) -> (flags: i32)
    ensures
        flags == adjusted_flags(current, requested, bit),
{
    if requested & bit != 0 {
        current | bit
    } else {
        current
    }
}

impl Call {
    /// The name of the method.
    pub fn member(self) -> (name: &'static str)
        ensures
            name@ == member_of(self),
    {
        match self {
            Call::TakeControl { .. } => "TakeControl",
            Call::ReleaseControl => "ReleaseControl",
            Call::Activate => "Activate",
            Call::TakeDevice { .. } => "TakeDevice",
            Call::ReleaseDevice { .. } => "ReleaseDevice",
            Call::SwitchTo { .. } => "SwitchTo",
        }
    }

    /// The interface that declares the method.
    pub fn interface(self) -> (name: &'static str)
        ensures
            name@ == if self is SwitchTo {
                "org.freedesktop.login1.Seat"@
            } else {
                "org.freedesktop.login1.Session"@
            },
    {
        match self {
            Call::SwitchTo { .. } => "org.freedesktop.login1.Seat",
            _ => "org.freedesktop.login1.Session",
        }
    }

    /// The object that the call is made on.
    pub fn object(self) -> (object: Object)
        ensures
            object == call_object(self),
    {
        match self {
            Call::SwitchTo { .. } => Object::Seat,
            _ => Object::Session,
        }
    }

    /// Whether the caller waits for the reply: only where the broker reads
    /// it or must know that the call went through.
    pub fn awaits_reply(self) -> (b: bool)
        ensures
            b == is_awaited(self),
    {
        match self {
            Call::TakeControl { .. } => true,
            Call::TakeDevice { .. } => true,
            _ => false,
        }
    }
}

impl Signal {
    /// The name of the signal.
    pub fn member(self) -> (name: &'static str)
        ensures
            name@ == signal_member(self),
    {
        match self {
            Signal::SessionRemoved => "SessionRemoved",
            Signal::PauseDevice => "PauseDevice",
            Signal::ResumeDevice => "ResumeDevice",
            Signal::PropertiesChanged => "PropertiesChanged",
        }
    }

    /// The interface that declares the signal.
    pub fn interface(self) -> (name: &'static str)
        ensures
            name@ == signal_interface(self),
    {
        match self {
            Signal::SessionRemoved => "org.freedesktop.login1.Manager",
            Signal::PauseDevice => "org.freedesktop.login1.Session",
            Signal::ResumeDevice => "org.freedesktop.login1.Session",
            Signal::PropertiesChanged => "org.freedesktop.DBus.Properties",
        }
    }

    /// The object that emits the signal.
    pub fn object(self) -> (object: Object)
        ensures
            object == signal_object(self),
    {
        match self {
            Signal::SessionRemoved => Object::Manager,
            _ => Object::Session,
        }
    }
}

impl LauncherError {
    /// An error of the given kind and text.
    pub fn new(kind: LauncherErrorKind, message: String) -> (e: Self)
        ensures
            e@ == (LauncherErrorView { kind, message: message@ }),
    {
        LauncherError { kind, message }
    }

    fn of(kind: LauncherErrorKind, message: &str) -> (e: Self)
        ensures
            e@ == (LauncherErrorView { kind, message: message@ }),
    {
        LauncherError { kind, message: message.to_owned() }
    }

    /// The failure of a bus call, with the transport's words `detail`.
    pub fn call_failed(call: Call, detail: &str) -> (e: Self)
        ensures
            e@ == (LauncherErrorView {
                kind: LauncherErrorKind::Transport,
                message: call_failed_text(call, detail@),
            }),
    {
        let mut message = String::from_str("Error sending message \"");
        message.append(call.member());
        if call.awaits_reply() {
            message.append("\": ");
            message.append(detail);
        } else {
            message.append("\"");
        }
        LauncherError { kind: LauncherErrorKind::Transport, message }
    }

    /// The failure of a step of connecting, with the transport's words
    /// `detail`.
    pub fn step_failed(step: ConnectStep, detail: &str) -> (e: Self)
        ensures
            e@ == (LauncherErrorView {
                kind: LauncherErrorKind::Transport,
                message: step_failed_text(step, detail@),
            }),
    {
        match step {
            ConnectStep::Subscribe(signal) => {
                let mut message = String::from_str("cannot dbus match signal \"");
                message.append(signal.member());
                message.append("\" ");
                message.append(detail);
                LauncherError { kind: LauncherErrorKind::Transport, message }
            },
            ConnectStep::Invoke(call) => LauncherError::call_failed(call, detail),
        }
    }

    pub fn kind(&self) -> (k: LauncherErrorKind)
        ensures
            k == self@.kind,
    {
        self.kind
    }

    /// Whether the failure is a mistake of the caller, which nothing can
    /// make up for: the caller is to stop, not to go on.
    pub fn is_usage_error(&self) -> (b: bool)
        ensures
            b == (self@.kind == LauncherErrorKind::NotCharacterDevice),
    {
        match self.kind {
            LauncherErrorKind::NotCharacterDevice => true,
            _ => false,
        }
    }

    /// The text that describes the failure.
    pub fn message(&self) -> (m: &str)
        ensures
            m@ == self@.message,
    {
        self.message.as_str()
    }
}

/// The broker of one session. It manages at most one device at a time.
#[derive(Debug)]
pub struct LogindLauncher {
    sync_drm: bool,
    seat_name: String,
    session_id: String,
    vt: u32,
    dbus_path: String,
    device_path: Option<String>,
    phase: Phase,
    nonblocking: i32,
}

/// The mathematical content of a [`LogindLauncher`].
pub struct LauncherView {
    pub sync_drm: bool,
    pub seat_name: Seq<char>,
    pub session_id: Seq<char>,
    pub vt: u32,
    pub dbus_path: Seq<char>,
    pub device_path: Option<Seq<char>>,
    pub phase: Phase,
    /// The non-blocking bit of the operating system that the broker runs on.
    pub nonblocking: i32,
}

impl View for LogindLauncher {
    type V = LauncherView;

    closed spec fn view(&self) -> LauncherView {
        LauncherView {
            sync_drm: self.sync_drm,
            seat_name: self.seat_name@,
            session_id: self.session_id@,
            vt: self.vt,
            dbus_path: self.dbus_path@,
            device_path: match self.device_path {
                Some(path) => Some(path@),
                None => None,
            },
            phase: self.phase,
            nonblocking: self.nonblocking,
        }
    }
}

/// A step of giving the session back.
#[derive(Debug)]
pub enum TeardownStep {
    /// Make the call.
    Invoke(Call),
    /// Release the device at the path, which the broker tracked.
    ReleaseDevice(String),
}

/// Whether `steps` are the steps that give the session back for a broker
/// that tracked `device`: control is released first, and then the device,
/// where there is one.
pub open spec fn is_teardown(steps: Seq<TeardownStep>, device: Option<Seq<char>>) -> bool {
    &&& steps.len() == if device is Some {
        2nat
    } else {
        1nat
    }
    &&& steps[0] matches TeardownStep::Invoke(call) && call == Call::ReleaseControl
    &&& device is Some ==> (steps[1] matches TeardownStep::ReleaseDevice(path) && path@
        == device->0)
}

/// The broker after an `open` of `path` that went through all its steps: a
/// broker without a device tracks the path; one with a device is left as it
/// is. An `open` that fails at any step leaves the broker as it was.
pub open spec fn after_open(broker: LauncherView, path: Seq<char>) -> LauncherView {
    if broker.device_path is Some {
        broker
    } else {
        LauncherView { device_path: Some(path), ..broker }
    }
}

/// The broker after `close`: it tracks no device.
pub open spec fn after_close(broker: LauncherView) -> LauncherView {
    LauncherView { device_path: None, ..broker }
}

/// The broker after connecting went through: it controls the session.
pub open spec fn after_connect(broker: LauncherView) -> LauncherView {
    LauncherView { phase: Phase::Controlled, ..broker }
}

/// The broker after it was torn down: it has given the session back and
/// tracks no device.
pub open spec fn after_teardown(broker: LauncherView) -> LauncherView {
    LauncherView { device_path: None, phase: Phase::Released, ..broker }
}

/// The state of the broker.
pub open spec fn state_of(broker: LauncherView) -> BrokerState {
    match broker.phase {
        Phase::Unconnected => BrokerState::Unconnected,
        Phase::Released => BrokerState::Released,
        Phase::Controlled => if broker.device_path is Some {
            BrokerState::DeviceOpen
        } else {
            BrokerState::Controlled
        },
    }
}

/// Whether `open` of a path succeeds on the broker.
pub open spec fn open_succeeds(broker: LauncherView) -> bool {
    broker.device_path is None
}

/// Once an `open` went through, every further `open` is refused, whatever
/// the path, and leaves the broker as it is; after `close` the next `open`
/// succeeds again. An `open` that failed counts for nothing: the broker is
/// as it was before it.
pub proof fn open_once_until_closed(broker: LauncherView, first: Seq<char>, second: Seq<char>)
    requires
        open_succeeds(broker),
    ensures
        !open_succeeds(after_open(broker, first)),
        after_open(after_open(broker, first), second) == after_open(broker, first),
        open_succeeds(after_close(after_open(broker, first))),
        after_open(after_close(after_open(broker, first)), second).device_path == Some(second),
{
}

/// A broker goes from unconnected to controlled by connecting, from there
/// to holding a device by `open` and back by `close`, and is released by
/// its teardown, with or without a device.
pub proof fn broker_life_cycle(broker: LauncherView, path: Seq<char>)
    requires
        state_of(broker) == BrokerState::Unconnected,
        broker.device_path is None,
    ensures
        state_of(after_connect(broker)) == BrokerState::Controlled,
        state_of(after_open(after_connect(broker), path)) == BrokerState::DeviceOpen,
        state_of(after_close(after_open(after_connect(broker), path))) == BrokerState::Controlled,
        state_of(after_teardown(after_connect(broker))) == BrokerState::Released,
        state_of(after_teardown(after_open(after_connect(broker), path))) == BrokerState::Released,
        after_teardown(after_open(after_connect(broker), path)).device_path is None,
{
}

/// Adjusting the flags of a descriptor changes at most its non-blocking
/// bit: the access mode and every other flag stay as the session manager
/// chose them, whatever the caller asked for.
pub proof fn only_nonblocking_changes(current: i32, requested: i32, bit: i32)
    requires
        is_nonblocking_bit(bit),
    ensures
        adjusted_flags(current, requested, bit) & !bit == current & !bit,
        adjusted_flags(current, requested, bit) & 3 == current & 3,
        requested & bit != 0 ==> adjusted_flags(current, requested, bit) & bit == bit,
        requested & bit == 0 ==> adjusted_flags(current, requested, bit) == current,
{
    assert((current | bit) & !bit == current & !bit) by (bit_vector);
    assert((current | bit) & bit == bit) by (bit_vector);
    assert((current | bit) & 3 == current & 3) by (bit_vector)
        requires
            bit == 0o200 || bit == 0o4000 || bit == 0x4000,
    ;
}

impl LogindLauncher {
    /// The broker of `session`. Where a virtual terminal is asked for, the
    /// session must be on it. The broker takes note of the non-blocking bit
    /// of the operating system, once and for all.
    pub fn new(tty: Option<u32>, seat_name: String, sync_drm: bool, session: Session) -> (r: Result<
        LogindLauncher,
        LauncherError,
    >)
        ensures
            match tty {
                Some(requested) if requested != session.vt => refused(
                    r,
                    LauncherErrorKind::VtMismatch,
                    vt_mismatch_text(requested, session.vt),
                ),
                _ => r is Ok && is_nonblocking_bit(r->Ok_0@.nonblocking) && r->Ok_0@
                    == (LauncherView {
                    sync_drm,
                    seat_name: seat_name@,
                    session_id: session.id@,
                    vt: session.vt,
                    dbus_path: session_path(session.id@),
                    device_path: None,
                    phase: Phase::Unconnected,
                    nonblocking: r->Ok_0@.nonblocking,
                }),
            },
    {
        match tty {
            Some(requested) => {
                if requested != session.vt {
                    let mut message = String::from_str("logind: requested VT --tty=");
                    push_decimal(&mut message, requested as i64);
                    message.append(" differs from real session VT ");
                    push_decimal(&mut message, session.vt as i64);
                    return Err(LauncherError::new(LauncherErrorKind::VtMismatch, message));
                }
            },
            None => {},
        }
        let mut dbus_path = String::from_str("/org/freedesktop/login1/session/");
        dbus_path.append(session.id.as_str());
        Ok(
            LogindLauncher {
                sync_drm,
                seat_name,
                session_id: session.id,
                vt: session.vt,
                dbus_path,
                device_path: None,
                phase: Phase::Unconnected,
                nonblocking: nonblocking_bit(),
            },
        )
    }

    /// The path of `object` on the bus.
    pub fn object_path(&self, object: Object) -> (path: String)
        ensures
            path@ == path_of(object, self@.dbus_path),
    {
        match object {
            Object::Manager => String::from_str("/org/freedesktop/login1"),
            Object::Session => self.dbus_path.clone(),
            Object::Seat => String::from_str("/org/freedesktop/login1/seat/self"),
        }
    }

    /// The match rule that subscribes to `signal`.
    pub fn match_rule(&self, signal: Signal) -> (rule: String)
        ensures
            rule@ == match_rule_text(signal, path_of(signal_object(signal), self@.dbus_path)),
    {
        let path = self.object_path(signal.object());
        let mut rule = String::from_str(
            "type='signal', sender='org.freedesktop.login1', interface='",
        );
        rule.append(signal.interface());
        rule.append("', member='");
        rule.append(signal.member());
        rule.append("', path='");
        rule.append(path.as_str());
        rule.append("'");
        rule
    }

    /// The steps of connecting, in the order in which they are taken. The
    /// first that fails ends the attempt.
    pub fn connect(&self) -> (steps: Vec<ConnectStep>)
        ensures
            steps@ == connect_steps(),
    {
        let mut steps: Vec<ConnectStep> = Vec::new();
        steps.push(ConnectStep::Subscribe(Signal::SessionRemoved));
        steps.push(ConnectStep::Subscribe(Signal::PauseDevice));
        steps.push(ConnectStep::Subscribe(Signal::ResumeDevice));
        steps.push(ConnectStep::Subscribe(Signal::PropertiesChanged));
        steps.push(ConnectStep::Invoke(Call::TakeControl { force: false }));
        steps.push(ConnectStep::Invoke(Call::Activate));
        steps
    }

    /// Takes note of how connecting went: `failure` is the first step that
    /// failed, with the transport's words, or `None` where all went
    /// through. Only then does the broker control the session.
    pub fn connected(&mut self, failure: Option<(ConnectStep, &str)>) -> (r: Result<
        (),
        LauncherError,
    >)
        ensures
            match failure {
                None => r is Ok && final(self)@ == after_connect(old(self)@),
                Some((step, detail)) => refused(
                    r,
                    LauncherErrorKind::Transport,
                    step_failed_text(step, detail@),
                ) && final(self)@ == old(self)@,
            },
    {
        match failure {
            None => {
                self.phase = Phase::Controlled;
                Ok(())
            },
            Some((step, detail)) => Err(LauncherError::step_failed(step, detail)),
        }
    }

    fn already_open(&self) -> (r: Result<(), LauncherError>)
        ensures
            open_succeeds(self@) ==> r is Ok,
            !open_succeeds(self@) ==> refused(
                r,
                LauncherErrorKind::AlreadyOpen,
                already_open_text(self@.device_path->0),
            ),
    {
        match &self.device_path {
            Some(path) => {
                let mut message = String::from_str("Device ");
                message.append(path.as_str());
                message.append(" already open");
                Err(LauncherError::new(LauncherErrorKind::AlreadyOpen, message))
            },
            None => Ok(()),
        }
    }

    /// Starts to open the device at `device_path`: refuses while a device
    /// is tracked, and lets the caller go on otherwise. Nothing is tracked
    /// yet: that is done by [`flags_set`](Self::flags_set), which ends an
    /// `open` that went through.
    pub fn open(&mut self, device_path: &str) -> (r: Result<(), LauncherError>)
        ensures
            final(self)@ == old(self)@,
            open_succeeds(old(self)@) ==> r is Ok,
            !open_succeeds(old(self)@) ==> refused(
                r,
                LauncherErrorKind::AlreadyOpen,
                already_open_text(old(self)@.device_path->0),
            ),
    {
        self.already_open()
    }

    /// The call that takes the device at `device_path`, whose node has the
    /// status `status`. A node that is no character device is refused: that
    /// is a mistake of the caller, to be treated as fatal.
    pub fn take_device(&self, device_path: &str, status: &FileStatus) -> (r: Result<
        Call,
        LauncherError,
    >)
        ensures
            is_character_mode(status.mode) ==> r == Ok::<Call, LauncherError>(
                Call::TakeDevice { major: major_of(status.rdev), minor: minor_of(status.rdev) },
            ),
            !is_character_mode(status.mode) ==> refused(
                r,
                LauncherErrorKind::NotCharacterDevice,
                not_character_device_text(device_path@),
            ),
    {
        if !is_character_device(status.mode) {
            let mut message = String::from_str("file ");
            message.append(device_path);
            message.append(" is not character device");
            return Err(LauncherError::new(LauncherErrorKind::NotCharacterDevice, message));
        }
        Ok(Call::TakeDevice { major: major(status.rdev), minor: minor(status.rdev) })
    }

    /// Reads the reply to taking a device: the descriptor and whether the
    /// device is paused, each `None` where the reply does not hold it.
    pub fn device_taken(&self, fd: Option<i32>, paused: Option<bool>) -> (r: Result<
        (i32, bool),
        LauncherError,
    >)
        ensures
            match fd {
                None => refused(
                    r,
                    LauncherErrorKind::BadReply,
                    "File descriptor not present in response message"@,
                ),
                Some(descriptor) => if descriptor < 0 {
                    refused(r, LauncherErrorKind::BadReply, "File desciptor invalid"@)
                } else {
                    match paused {
                        None => refused(
                            r,
                            LauncherErrorKind::BadReply,
                            "Paused boolean value not present in response message"@,
                        ),
                        Some(p) => r == Ok::<(i32, bool), LauncherError>((descriptor, p)),
                    }
                },
            },
    {
        let descriptor = match fd {
            Some(descriptor) => descriptor,
            None => {
                return Err(
                    LauncherError::of(
                        LauncherErrorKind::BadReply,
                        "File descriptor not present in response message",
                    ),
                );
            },
        };
        if descriptor < 0 {
            return Err(LauncherError::of(LauncherErrorKind::BadReply, "File desciptor invalid"));
        }
        match paused {
            Some(p) => Ok((descriptor, p)),
            None => Err(
                LauncherError::of(
                    LauncherErrorKind::BadReply,
                    "Paused boolean value not present in response message",
                ),
            ),
        }
    }

    /// The status flags to set on the descriptor of the device, whose flags
    /// are `current` (negative where they could not be read), for a caller
    /// that asked for `requested`. Only the non-blocking bit that the
    /// broker took note of is taken over; the access mode stays as the
    /// session manager chose it.
    pub fn status_flags(&self, current: i32, requested: i32) -> (r: Result<i32, LauncherError>)
        ensures
            current < 0 ==> refused(
                r,
                LauncherErrorKind::Descriptor,
                "Error reading file flags from device file descriptor"@,
            ),
            current >= 0 ==> r == Ok::<i32, LauncherError>(
                adjusted_flags(current, requested, self@.nonblocking),
            ),
    {
        if current < 0 {
            return Err(
                LauncherError::of(
                    LauncherErrorKind::Descriptor,
                    "Error reading file flags from device file descriptor",
                ),
            );
        }
        Ok(with_nonblocking(current, requested, self.nonblocking))
    }

    /// Reads the status of setting the flags of the descriptor `fd` of the
    /// device at `device_path`, and with it ends `open`. Where the flags
    /// were set, the path is tracked from now on and the descriptor is the
    /// caller's; where not, the broker is left as it was. A broker that
    /// tracks a device takes no other.
    pub fn flags_set(&mut self, device_path: &str, fd: i32, status: i32) -> (r: Result<
        i32,
        LauncherError,
    >)
        ensures
            status < 0 ==> refused(
                r,
                LauncherErrorKind::Descriptor,
                "Error setting file flags from device file descriptor"@,
            ) && final(self)@ == old(self)@,
            status >= 0 && open_succeeds(old(self)@) ==> r == Ok::<i32, LauncherError>(fd)
                && final(self)@ == after_open(old(self)@, device_path@),
            status >= 0 && !open_succeeds(old(self)@) ==> refused(
                r,
                LauncherErrorKind::AlreadyOpen,
                already_open_text(old(self)@.device_path->0),
            ) && final(self)@ == old(self)@,
    {
        if status < 0 {
            return Err(
                LauncherError::of(
                    LauncherErrorKind::Descriptor,
                    "Error setting file flags from device file descriptor",
                ),
            );
        }
        match self.already_open() {
            Ok(_) => {
                self.device_path = Some(device_path.to_owned());
                Ok(fd)
            },
            Err(e) => Err(e),
        }
    }

    /// Stops tracking the device, and returns its path for the caller to
    /// release the device with; `None` where no device was tracked.
    pub fn close(&mut self) -> (path: Option<String>)
        ensures
            final(self)@ == after_close(old(self)@),
            match path {
                Some(p) => old(self)@.device_path == Some(p@),
                None => old(self)@.device_path is None,
            },
    {
        self.device_path.take()
    }

    /// The call that releases the device whose node has the status `status`.
    pub fn release_device(&self, status: &FileStatus) -> (call: Call)
        ensures
            call == (Call::ReleaseDevice {
                major: major_of(status.rdev),
                minor: minor_of(status.rdev),
            }),
    {
        Call::ReleaseDevice { major: major(status.rdev), minor: minor(status.rdev) }
    }

    /// The call that switches the seat to the session's virtual terminal.
    pub fn activate_vt(&self) -> (call: Call)
        ensures
            call == (Call::SwitchTo { vt: self@.vt }),
    {
        Call::SwitchTo { vt: self.vt }
    }

    /// Ends the broker's hold on the session: returns the steps that give
    /// it back, in the order in which they are taken. Control is released
    /// first; the device that was still tracked, if any, after it. A step
    /// that fails does not hold up the next. Afterwards no device is
    /// tracked.
    pub fn teardown(&mut self) -> (steps: Vec<TeardownStep>)
        ensures
            is_teardown(steps@, old(self)@.device_path),
            final(self)@ == after_teardown(old(self)@),
    {
        self.phase = Phase::Released;
        let mut steps: Vec<TeardownStep> = Vec::new();
        steps.push(TeardownStep::Invoke(Call::ReleaseControl));
        match self.device_path.take() {
            Some(path) => {
                steps.push(TeardownStep::ReleaseDevice(path));
            },
            None => {},
        }
        steps
    }

    /// The path of the tracked device.
    pub fn device_path(&self) -> (path: Option<&str>)
        ensures
            match path {
                Some(p) => self@.device_path == Some(p@),
                None => self@.device_path is None,
            },
    {
        match &self.device_path {
            Some(p) => Some(p.as_str()),
            None => None,
        }
    }

    /// The state of the broker.
    pub fn state(&self) -> (state: BrokerState)
        ensures
            state == state_of(self@),
    {
        match self.phase {
            Phase::Unconnected => BrokerState::Unconnected,
            Phase::Released => BrokerState::Released,
            Phase::Controlled => {
                if self.device_path.is_some() {
                    BrokerState::DeviceOpen
                } else {
                    BrokerState::Controlled
                }
            },
        }
    }

    /// Where the broker stands with the session.
    pub fn phase(&self) -> (phase: Phase)
        ensures
            phase == self@.phase,
    {
        self.phase
    }

    /// The virtual terminal of the session.
    pub fn vt(&self) -> (vt: u32)
        ensures
            vt == self@.vt,
    {
        self.vt
    }
}

} // verus!
