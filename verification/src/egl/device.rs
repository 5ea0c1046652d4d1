//! Acceleration endpoints: EGL devices, how they are enumerated, and the
//! device file each one belongs to.

use vstd::prelude::*;
use vstd::string::*;
use crate::egl::egl_error::{
    EGLError,
    EGLErrorKind,
    EGLErrorView,
    EGLint,
    egl_error_state,
    error_state_text,
    fails_with,
};
use crate::egl::extensions::{Extensions, words};
use crate::egl::types::{DRM_DEVICE_FILE_EXT, EGLDeviceEXT};
use crate::text::{decimal, hexadecimal, push_decimal, push_hexadecimal};

verus! {

/// An acceleration endpoint, by the handle the EGL library gave it.
#[derive(Debug, Clone, Copy, PartialEq, Eq, Structural)]
pub struct EGLDevice {
    raw_device: EGLDeviceEXT,
}

impl View for EGLDevice {
    type V = EGLDeviceEXT;

    closed spec fn view(&self) -> EGLDeviceEXT {
        self.raw_device
    }
}

/// The complaint about a device string that the EGL library did not give.
pub open spec fn null_string_text(device: nat, what: Seq<char>, code: int) -> Seq<char> {
    "QueryDeviceStringEXT("@ + hexadecimal(device) + ", "@ + what + ") returned NULL: "@
        + error_state_text(code)
}

/// The complaint about a failed enumeration of `count` devices.
pub open spec fn enumeration_failed_text(count: int, into: Seq<char>, code: int) -> Seq<char> {
    "device_querier("@ + decimal(count) + ", "@ + into + ", *num_devices) call failed: "@
        + error_state_text(code)
}

/// Whether `r` is what the query for the device file of `device` owes for
/// these answers of the EGL library: the file, for a device that has
/// `EGL_EXT_device_drm` among its extensions and reports one.
pub open spec fn is_device_file(
    r: Result<String, EGLError>,
    device: EGLDevice,
    device_extensions: Option<&str>,
    device_file: Option<&str>,
    code: int,
) -> bool {
    match device_extensions {
        None => fails_with(
            r,
            EGLErrorKind::EnumerationFailed,
            null_string_text(device@ as nat, "EXTENSIONS"@, code),
            code,
        ),
        Some(list) => if !words(list@).contains("EGL_EXT_device_drm"@) {
            fails_with(r, EGLErrorKind::CapabilityMissing, "EGL_EXT_device_drm not supported"@, code)
        } else {
            match device_file {
                None => fails_with(
                    r,
                    EGLErrorKind::EnumerationFailed,
                    null_string_text(device@ as nat, hexadecimal(DRM_DEVICE_FILE_EXT as nat), code),
                    code,
                ),
                Some(file) => r is Ok && r->Ok_0@ == file@,
            }
        },
    }
}

fn null_string_message(device: EGLDeviceEXT, what: &str, code: EGLint) -> (s: String)
    ensures
        s@ == null_string_text(device as nat, what@, code as int),
{
    let mut s = String::from_str("QueryDeviceStringEXT(");
    push_hexadecimal(&mut s, device as u64);
    s.append(", ");
    s.append(what);
    s.append(") returned NULL: ");
    let state = egl_error_state(code);
    s.append(state.as_str());
    s
}

fn enumeration_failed_message(count: i64, into: &str, code: EGLint) -> (s: String)
    ensures
        s@ == enumeration_failed_text(count as int, into@, code as int),
{
    let mut s = String::from_str("device_querier(");
    push_decimal(&mut s, count);
    s.append(", ");
    s.append(into);
    s.append(", *num_devices) call failed: ");
    let state = egl_error_state(code);
    s.append(state.as_str());
    s
}

/// Checks that the EGL client library knows devices at all.
/// `client_extensions` is its extension string, `None` where it gave none;
/// `code` is the error state it reported.
pub fn device_base_supported(client_extensions: Option<&str>, code: EGLint) -> (r: Result<
    (),
    EGLError,
>)
    ensures
        match client_extensions {
            None => fails_with(
                r,
                EGLErrorKind::EnumerationFailed,
                "Retrieving EGL extension string failed."@,
                code as int,
            ),
            Some(list) => if words(list@).contains("EGL_EXT_device_base"@) {
                r is Ok
            } else {
                fails_with(
                    r,
                    EGLErrorKind::CapabilityMissing,
                    "EGL_EXT_device_base not supported"@,
                    code as int,
                )
            },
        },
{
    let extensions = Extensions::query(client_extensions, code)?;
    if !extensions.contains("EGL_EXT_device_base") {
        return Err(
            EGLError::new(EGLErrorKind::CapabilityMissing, "EGL_EXT_device_base not supported", code),
        );
    }
    Ok(())
}

/// Checks that an entry point without which nothing can go on was resolved;
/// `name` is how the failure calls it.
pub fn entry_point_required(loaded: bool, name: &str, code: EGLint) -> (r: Result<(), EGLError>)
    ensures
        loaded ==> r is Ok,
        !loaded ==> fails_with(
            r,
            EGLErrorKind::CapabilityMissing,
            name@ + " is necessary"@,
            code as int,
        ),
{
    if loaded {
        Ok(())
    } else {
        let mut message = String::from_str(name);
        message.append(" is necessary");
        Err(EGLError::with_message(EGLErrorKind::CapabilityMissing, message, code))
    }
}

/// What `device_count` makes of the answer to the question how many
/// devices there are.
pub open spec fn counted(answer: Option<EGLint>, code: int) -> Result<EGLint, EGLErrorView> {
    match answer {
        None => Err(
            EGLErrorView {
                kind: EGLErrorKind::EnumerationFailed,
                message: enumeration_failed_text(0, "0"@, code),
                code,
            },
        ),
        Some(n) => if n < 1 {
            Err(
                EGLErrorView {
                    kind: EGLErrorKind::NoEndpoints,
                    message: "No device found!"@,
                    code,
                },
            )
        } else {
            Ok(n)
        },
    }
}

/// Reads the number of devices that the EGL library reported, `None` where
/// the call failed. No device at all is an error.
pub fn device_count(answer: Option<EGLint>, code: EGLint) -> (r: Result<EGLint, EGLError>)
    ensures
        match counted(answer, code as int) {
            Ok(n) => r == Ok::<EGLint, EGLError>(n),
            Err(e) => r is Err && r->Err_0@ == e,
        },
{
    match answer {
        None => Err(
            EGLError::with_message(
                EGLErrorKind::EnumerationFailed,
                enumeration_failed_message(0, "0", code),
                code,
            ),
        ),
        Some(n) => {
            if n < 1 {
                Err(EGLError::new(EGLErrorKind::NoEndpoints, "No device found!", code))
            } else {
                Ok(n)
            }
        },
    }
}

/// Whether `r` is what the listing of `count` devices owes for the answer
/// of the EGL library: a device for each handle, in the order of the
/// handles.
pub open spec fn is_listing(
    r: Result<Vec<EGLDevice>, EGLError>,
    count: EGLint,
    listed: Option<Vec<EGLDeviceEXT>>,
    code: int,
) -> bool {
    match listed {
        None => fails_with(
            r,
            EGLErrorKind::EnumerationFailed,
            enumeration_failed_text(count as int, "*devices"@, code),
            code,
        ),
        Some(handles) => {
            &&& r is Ok
            &&& r->Ok_0@.len() == handles@.len()
            &&& forall|i: int| 0 <= i < handles@.len() ==> (#[trigger] r->Ok_0@[i])@ == handles@[i]
        },
    }
}

/// The devices behind the handles that the EGL library listed when asked
/// for `count` of them, in its order; `None` where the call failed.
pub fn get_egl_devices(count: EGLint, listed: Option<Vec<EGLDeviceEXT>>, code: EGLint) -> (r: Result<
    Vec<EGLDevice>,
    EGLError,
>)
    ensures
        is_listing(r, count, listed, code as int),
{
    match listed {
        None => Err(
            EGLError::with_message(
                EGLErrorKind::EnumerationFailed,
                enumeration_failed_message(count as i64, "*devices", code),
                code,
            ),
        ),
        Some(handles) => {
            let mut devices: Vec<EGLDevice> = Vec::new();
            let mut i: usize = 0;
            while i < handles.len()
                invariant
                    i <= handles@.len(),
                    devices@.len() == i,
                    forall|k: int| 0 <= k < i ==> (#[trigger] devices@[k])@ == handles@[k],
                decreases handles@.len() - i,
            {
                devices.push(EGLDevice::from_raw(handles[i]));
                i = i + 1;
            }
            Ok(devices)
        },
    }
}

impl EGLDevice {
    /// The device with the handle `raw_device`.
    pub fn from_raw(raw_device: EGLDeviceEXT) -> (device: Self)
        ensures
            device@ == raw_device,
    {
        Self { raw_device }
    }

    /// The handle of the device.
    pub fn raw(&self) -> (raw_device: EGLDeviceEXT)
        ensures
            raw_device == self@,
    {
        self.raw_device
    }

    /// The device file of this device, from the two strings that the EGL
    /// library gave for it: its extensions and its DRM device file, each
    /// `None` where the library gave none. A device without
    /// `EGL_EXT_device_drm` has no device file.
    pub fn get_drm_device_file(
        &self,
        device_extensions: Option<&str>,
        device_file: Option<&str>,
        code: EGLint,
    ) -> (r: Result<String, EGLError>)
        ensures
            is_device_file(r, *self, device_extensions, device_file, code as int),
    {
        let list = match device_extensions {
            Some(list) => list,
            None => {
                return Err(
                    EGLError::with_message(
                        EGLErrorKind::EnumerationFailed,
                        null_string_message(self.raw_device, "EXTENSIONS", code),
                        code,
                    ),
                );
            },
        };
        let supported = Extensions::parse(list);
        if !supported.contains("EGL_EXT_device_drm") {
            return Err(
                EGLError::new(
                    EGLErrorKind::CapabilityMissing,
                    "EGL_EXT_device_drm not supported",
                    code,
                ),
            );
        }
        match device_file {
            Some(file) => Ok(file.to_owned()),
            None => {
                let mut what = String::new();
                push_hexadecimal(&mut what, DRM_DEVICE_FILE_EXT as u64);
                Err(
                    EGLError::with_message(
                        EGLErrorKind::EnumerationFailed,
                        null_string_message(self.raw_device, what.as_str(), code),
                        code,
                    ),
                )
            },
        }
    }
}

} // verus!
