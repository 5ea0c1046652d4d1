//! The EGL library and its entry points, as what was loaded and what was
//! not. Loading happens once: a second attempt changes nothing.

use vstd::prelude::*;
use vstd::string::*;
use crate::egl::egl_error::{EGLError, EGLErrorKind, EGLint, fails_with};

verus! {

/// The EGL library, loaded or not. The value is owned by whoever loads the
/// library, and handed to what needs it.
#[derive(Debug)]
pub struct EglLoader {
    lib: Option<usize>,
}

/// The complaint about an EGL library that could not be loaded.
pub open spec fn library_failed_text(detail: Seq<char>) -> Seq<char> {
    "Impossible to load EGL Library: \""@ + detail + "\""@
}

/// The complaint about an entry point that could not be resolved.
pub open spec fn address_failed_text(function_name: Seq<char>) -> Seq<char> {
    "could not get address of "@ + function_name
}

impl EglLoader {
    /// The handle of the library, once it is loaded.
    pub closed spec fn library(&self) -> Option<usize> {
        self.lib
    }

    /// A loader that has loaded nothing.
    pub fn new() -> (loader: Self)
        ensures
            loader.library() is None,
    {
        EglLoader { lib: None }
    }

    /// The path that the library is loaded from.
    pub fn library_path() -> (path: &'static str)
        ensures
            path@ == "libEGL.so"@,
    {
        "libEGL.so"
    }

    /// Whether the library is still to be loaded.
    pub fn needs_loading(&self) -> (b: bool)
        ensures
            b == (self.library() is None),
    {
        self.lib.is_none()
    }

    /// Takes note of an attempt to load the library: its handle, or the
    /// words of the failure. A loader that holds the library keeps it and
    /// succeeds, whatever the attempt was.
    #[allow(non_snake_case)]
    pub fn load_EGL(&mut self, opened: Result<usize, &str>, code: EGLint) -> (r: Result<
        (),
        EGLError,
    >)
        ensures
            old(self).library() is Some ==> r is Ok && final(self).library() == old(self).library(),
            old(self).library() is None ==> match opened {
                Ok(handle) => r is Ok && final(self).library() == Some(handle),
                Err(detail) => fails_with(
                    r,
                    EGLErrorKind::InitializationFailed,
                    library_failed_text(detail@),
                    code as int,
                ) && final(self).library() is None,
            },
    {
        if self.lib.is_some() {
            return Ok(());
        }
        match opened {
            Ok(handle) => {
                self.lib = Some(handle);
                Ok(())
            },
            Err(detail) => {
                let mut message = String::from_str("Impossible to load EGL Library: \"");
                message.append(detail);
                message.append("\"");
                Err(EGLError::with_message(EGLErrorKind::InitializationFailed, message, code))
            },
        }
    }
}

/// The slot of one entry point: its address, once it was resolved.
#[derive(Debug, Clone, Copy, PartialEq, Eq, Structural)]
pub struct FnPtr {
    pub f: usize,
    pub is_loaded: bool,
}

impl FnPtr {
    /// A slot that holds nothing.
    pub fn new() -> (slot: Self)
        ensures
            slot == (FnPtr { f: 0, is_loaded: false }),
    {
        FnPtr { f: 0, is_loaded: false }
    }

    /// Takes note of the address that the EGL library gave for
    /// `function_name`; the null address is a failure. A slot that is
    /// loaded keeps its address and succeeds, whatever was given.
    #[allow(non_snake_case)]
    pub fn load_with_GetProcAddress(&mut self, function_name: &str, address: usize, code: EGLint)
        -> (r: Result<(), EGLError>)
        ensures
            old(self).is_loaded ==> r is Ok && *final(self) == *old(self),
            !old(self).is_loaded && address != 0 ==> r is Ok && *final(self) == (FnPtr {
                f: address,
                is_loaded: true,
            }),
            !old(self).is_loaded && address == 0 ==> fails_with(
                r,
                EGLErrorKind::CapabilityMissing,
                address_failed_text(function_name@),
                code as int,
            ) && *final(self) == *old(self),
    {
        if self.is_loaded {
            return Ok(());
        }
        if address == 0 {
            let mut message = String::from_str("could not get address of ");
            message.append(function_name);
            return Err(EGLError::with_message(EGLErrorKind::CapabilityMissing, message, code));
        }
        self.f = address;
        self.is_loaded = true;
        Ok(())
    }
}

} // verus!
