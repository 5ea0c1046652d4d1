//! Errors of the EGL negotiation and the names of the EGL error codes.

use vstd::prelude::*;
use vstd::string::*;
use crate::text::{decimal, push_decimal};

verus! {

/// An EGL integer, as the API passes them.
pub type EGLint = i32;

pub const SUCCESS: EGLint = 0x3000;
pub const NOT_INITIALIZED: EGLint = 0x3001;
pub const BAD_ACCESS: EGLint = 0x3002;
pub const BAD_ALLOC: EGLint = 0x3003;
pub const BAD_ATTRIBUTE: EGLint = 0x3004;
pub const BAD_CONFIG: EGLint = 0x3005;
pub const BAD_CONTEXT: EGLint = 0x3006;
pub const BAD_CURRENT_SURFACE: EGLint = 0x3007;
pub const BAD_DISPLAY: EGLint = 0x3008;
pub const BAD_MATCH: EGLint = 0x3009;
pub const BAD_NATIVE_PIXMAP: EGLint = 0x300A;
pub const BAD_NATIVE_WINDOW: EGLint = 0x300B;
pub const BAD_PARAMETER: EGLint = 0x300C;
pub const BAD_SURFACE: EGLint = 0x300D;
pub const CONTEXT_LOST: EGLint = 0x300E;

/// What went wrong, for callers that branch on it.
#[derive(Debug, Clone, Copy, PartialEq, Eq, Structural)]
pub enum EGLErrorKind {
    /// An enumeration or a query of the EGL library failed.
    EnumerationFailed,
    /// The EGL library enumerated no acceleration endpoint.
    NoEndpoints,
    /// No enumerated endpoint belongs to the opened device.
    DeviceNotFound,
    /// The display offers no configuration at all.
    NoConfigs,
    /// No configuration has the required attributes or visual.
    NoMatchingConfig,
    /// A display could not be created or initialised.
    InitializationFailed,
    /// A mandatory extension or entry point is absent.
    CapabilityMissing,
    /// The operation is not implemented by this renderer.
    Unsupported,
    /// Any other failure, described by its message alone.
    Other,
}

/// A failed EGL operation: what it was, and the error code the EGL library
/// reported for it.
#[derive(Debug)]
pub struct EGLError {
    kind: EGLErrorKind,
    message: String,
    code: EGLint,
}

/// The mathematical content of an [`EGLError`].
pub struct EGLErrorView {
    pub kind: EGLErrorKind,
    pub message: Seq<char>,
    pub code: int,
}

impl View for EGLError {
    type V = EGLErrorView;

    closed spec fn view(&self) -> EGLErrorView {
        EGLErrorView { kind: self.kind, message: self.message@, code: self.code as int }
    }
}

/// The name of an EGL error code; `unknown` for a number that is none.
pub open spec fn error_name(code: int) -> Seq<char> {
    if code == SUCCESS {
        "SUCCESS"@
    } else if code == NOT_INITIALIZED {
        "NOT_INITIALIZED"@
    } else if code == BAD_ACCESS {
        "BAD_ACCESS"@
    } else if code == BAD_ALLOC {
        "BAD_ALLOC"@
    } else if code == BAD_ATTRIBUTE {
        "BAD_ATTRIBUTE"@
    } else if code == BAD_CONTEXT {
        "BAD_CONTEXT"@
    } else if code == BAD_CONFIG {
        "BAD_CONFIG"@
    } else if code == BAD_CURRENT_SURFACE {
        "BAD_CURRENT_SURFACE"@
    } else if code == BAD_DISPLAY {
        "BAD_DISPLAY"@
    } else if code == BAD_SURFACE {
        "BAD_SURFACE"@
    } else if code == BAD_MATCH {
        "BAD_MATCH"@
    } else if code == BAD_PARAMETER {
        "BAD_PARAMETER"@
    } else if code == BAD_NATIVE_PIXMAP {
        "BAD_NATIVE_PIXMAP"@
    } else if code == BAD_NATIVE_WINDOW {
        "BAD_NATIVE_WINDOW"@
    } else if code == CONTEXT_LOST {
        "CONTEXT_LOST"@
    } else {
        "unknown"@
    }
}

/// The line that reports an EGL error state: the code's name, then the code
/// itself in decimal between brackets.
pub open spec fn error_state_text(code: int) -> Seq<char> {
    "EGL error state: "@ + error_name(code) + " ("@ + decimal(code) + ")\n"@
}

/// How an [`EGLError`] is shown: its message, then the name of its code.
pub open spec fn error_description(e: EGLErrorView) -> Seq<char> {
    "EGLError "@ + e.message + ": "@ + error_name(e.code)
}

/// Whether `r` is the failure of the given kind, message and code.
pub open spec fn fails_with<T>(
    r: Result<T, EGLError>,
    kind: EGLErrorKind,
    message: Seq<char>,
    code: int,
) -> bool {
    r is Err && r->Err_0@ == (EGLErrorView { kind, message, code })
}

impl EGLError {
    /// An error of the given kind.
    pub fn new(kind: EGLErrorKind, message: &str, code: EGLint) -> (e: Self)
        ensures
            e@ == (EGLErrorView { kind, message: message@, code: code as int }),
    {
        EGLError { kind, message: message.to_owned(), code }
    }

    /// An error of the given kind whose message was built by the caller.
    pub fn with_message(kind: EGLErrorKind, message: String, code: EGLint) -> (e: Self)
        ensures
            e@ == (EGLErrorView { kind, message: message@, code: code as int }),
    {
        EGLError { kind, message, code }
    }

    /// An error of no particular kind that owns its message; `code` is the
    /// error state that the EGL library reported.
    pub fn from_string(message: String, code: EGLint) -> (e: Self)
        ensures
            e@ == (EGLErrorView {
                kind: EGLErrorKind::Other,
                message: message@,
                code: code as int,
            }),
    {
        EGLError { kind: EGLErrorKind::Other, message, code }
    }

    /// An error of no particular kind with a copy of `message`; `code` is
    /// the error state that the EGL library reported.
    pub fn from_str(message: &str, code: EGLint) -> (e: Self)
        ensures
            e@ == (EGLErrorView {
                kind: EGLErrorKind::Other,
                message: message@,
                code: code as int,
            }),
    {
        EGLError { kind: EGLErrorKind::Other, message: message.to_owned(), code }
    }

    pub fn kind(&self) -> (k: EGLErrorKind)
        ensures
            k == self@.kind,
    {
        self.kind
    }

    pub fn message(&self) -> (m: &str)
        ensures
            m@ == self@.message,
    {
        self.message.as_str()
    }

    pub fn code(&self) -> (c: EGLint)
        ensures
            c == self@.code,
    {
        self.code
    }

    /// The text shown for this error.
    pub fn description(&self) -> (s: String)
        ensures
            s@ == error_description(self@),
    {
        let mut s = String::from_str("EGLError ");
        s.append(self.message.as_str());
        s.append(": ");
        s.append(egl_error_string(self.code));
        s
    }
}

/// The name of an EGL error code.
pub fn egl_error_string(code: EGLint) -> (name: &'static str)
    ensures
        name@ == error_name(code as int),
{
    if code == SUCCESS {
        "SUCCESS"
    } else if code == NOT_INITIALIZED {
        "NOT_INITIALIZED"
    } else if code == BAD_ACCESS {
        "BAD_ACCESS"
    } else if code == BAD_ALLOC {
        "BAD_ALLOC"
    } else if code == BAD_ATTRIBUTE {
        "BAD_ATTRIBUTE"
    } else if code == BAD_CONTEXT {
        "BAD_CONTEXT"
    } else if code == BAD_CONFIG {
        "BAD_CONFIG"
    } else if code == BAD_CURRENT_SURFACE {
        "BAD_CURRENT_SURFACE"
    } else if code == BAD_DISPLAY {
        "BAD_DISPLAY"
    } else if code == BAD_SURFACE {
        "BAD_SURFACE"
    } else if code == BAD_MATCH {
        "BAD_MATCH"
    } else if code == BAD_PARAMETER {
        "BAD_PARAMETER"
    } else if code == BAD_NATIVE_PIXMAP {
        "BAD_NATIVE_PIXMAP"
    } else if code == BAD_NATIVE_WINDOW {
        "BAD_NATIVE_WINDOW"
    } else if code == CONTEXT_LOST {
        "CONTEXT_LOST"
    } else {
        "unknown"
    }
}

/// The line that reports the error state `code` of the EGL library.
pub fn egl_error_state(code: EGLint) -> (s: String)
    ensures
        s@ == error_state_text(code as int),
{
    let mut s = String::from_str("EGL error state: ");
    s.append(egl_error_string(code));
    s.append(" (");
    push_decimal(&mut s, code as i64);
    s.append(")\n");
    s
}

} // verus!
