//! Images imported into the GPU through a display connection.

use vstd::prelude::*;
use vstd::string::*;
use crate::egl::display::EGLDisplay;
use crate::egl::egl_error::{EGLError, EGLErrorKind, EGLint, fails_with};
use crate::egl::types::{EGLContext, EGLDisplayHandle, EGLImageKHR, NO_CONTEXT, NO_IMAGE};
use crate::text::{hexadecimal, push_hexadecimal};

verus! {

/// An image of the display it borrows. The borrow keeps the display alive
/// for as long as the image, and [`release`](Self::release) consumes the
/// image, so it is destroyed at most once and never after its display.
#[derive(Debug)]
pub struct Image<'display> {
    display: &'display EGLDisplay,
    raw: EGLImageKHR,
}

/// The complaint about an image that could not be created.
pub open spec fn creation_failed_text(display: EGLDisplayHandle) -> Seq<char> {
    "Failed to create image for display "@ + hexadecimal(display as nat)
}

impl<'display> Image<'display> {
    /// The display that the image belongs to.
    pub closed spec fn display(&self) -> &'display EGLDisplay {
        self.display
    }

    /// The handle of the image.
    pub closed spec fn handle(&self) -> EGLImageKHR {
        self.raw
    }

    /// The context to create an image in: the given one, or none.
    pub fn context_argument(context: Option<EGLContext>) -> (argument: EGLContext)
        ensures
            argument == match context {
                Some(c) => c,
                None => NO_CONTEXT,
            },
    {
        match context {
            Some(c) => c,
            None => NO_CONTEXT,
        }
    }

    /// The image behind the handle that image creation on `display`
    /// returned; the null handle is a failure.
    pub fn new(display: &'display EGLDisplay, raw: EGLImageKHR, code: EGLint) -> (r: Result<
        Box<Self>,
        EGLError,
    >)
        ensures
            raw != NO_IMAGE ==> r is Ok && r->Ok_0.handle() == raw && r->Ok_0.display() == display,
            raw == NO_IMAGE ==> fails_with(
                r,
                EGLErrorKind::Other,
                creation_failed_text(display.handle()),
                code as int,
            ),
    {
        if raw == NO_IMAGE {
            let mut message = String::from_str("Failed to create image for display ");
            push_hexadecimal(&mut message, *display.raw_ref() as u64);
            Err(EGLError::from_string(message, code))
        } else {
            Ok(Box::new(Self { display, raw }))
        }
    }

    /// The handle of the image.
    pub fn raw_ref(&self) -> (raw: &EGLImageKHR)
        ensures
            *raw == self.handle(),
    {
        &self.raw
    }

    /// The handle of the image, to be replaced in place.
    pub fn raw_mut_ref(&mut self) -> (raw: &mut EGLImageKHR)
        ensures
            *raw == old(self).handle(),
            final(self).handle() == *final(raw),
            final(self).display() == old(self).display(),
    {
        &mut self.raw
    }

    /// The handle of the image.
    pub fn raw(&self) -> (raw: EGLImageKHR)
        ensures
            raw == self.handle(),
    {
        self.raw
    }

    /// Gives the image up: hands out the display's and the image's handle
    /// for the caller to destroy the image with.
    pub fn release(self) -> (handles: (EGLDisplayHandle, EGLImageKHR))
        ensures
            handles.0 == self.display().handle(),
            handles.1 == self.handle(),
    {
        (*self.display.raw_ref(), self.raw)
    }
}

} // verus!
