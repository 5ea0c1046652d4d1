//! The display connection: how it is created and initialised, and which
//! configuration it is given.

use vstd::prelude::*;
use vstd::string::*;
use crate::egl::egl_error::{EGLError, EGLErrorKind, EGLint, fails_with};
use crate::egl::extensions::{Extensions, words};
use crate::egl::types::{
    ALPHA_SIZE,
    BLUE_SIZE,
    DRM_MASTER_FD_EXT,
    EGLConfig,
    EGLDisplayHandle,
    GREEN_SIZE,
    NONE,
    NO_DISPLAY,
    OPENGL_ES2_BIT,
    RED_SIZE,
    RENDERABLE_TYPE,
    STREAM_BIT_KHR,
    SURFACE_TYPE,
};

verus! {

/// A display connection, by the handle the EGL library gave it. Whoever
/// holds the value holds the connection: [`terminate`](Self::terminate)
/// consumes it, so the handle is released at most once.
#[derive(Debug)]
pub struct EGLDisplay {
    display_raw: EGLDisplayHandle,
    version: Option<(EGLint, EGLint)>,
}

/// A configuration that the EGL library offered for the required
/// attributes, with its native visual; `None` where that could not be read.
#[derive(Debug, Clone, Copy, PartialEq, Eq, Structural)]
pub struct Config {
    pub handle: EGLConfig,
    pub native_visual_id: Option<EGLint>,
}

/// The attributes that a configuration must have: a stream surface, at
/// least one bit of red, green and blue, and OpenGL ES 2 rendering.
pub open spec fn required_attributes() -> Seq<EGLint> {
    seq![
        SURFACE_TYPE,
        STREAM_BIT_KHR,
        RED_SIZE,
        1,
        GREEN_SIZE,
        1,
        BLUE_SIZE,
        1,
        ALPHA_SIZE,
        0,
        RENDERABLE_TYPE,
        OPENGL_ES2_BIT,
        NONE,
    ]
}

/// Whether the native visual of `config` is one of `ids`.
pub open spec fn has_visual(config: Config, ids: Seq<EGLint>) -> bool {
    config.native_visual_id is Some && ids.contains(config.native_visual_id->0)
}

/// Whether `configs[i]` is the first configuration with a visual of `ids`.
pub open spec fn is_first_with_visual(configs: Seq<Config>, ids: Seq<EGLint>, i: int) -> bool {
    &&& 0 <= i < configs.len()
    &&& has_visual(configs[i], ids)
    &&& forall|j: int| 0 <= j < i ==> !has_visual(#[trigger] configs[j], ids)
}

/// Whether any configuration has a visual of `ids`.
pub open spec fn some_has_visual(configs: Seq<Config>, ids: Seq<EGLint>) -> bool {
    exists|i: int| 0 <= i < configs.len() && has_visual(#[trigger] configs[i], ids)
}

/// Whether `r` is what configuration selection owes for these answers of
/// the EGL library. `available` is the number of configurations of the
/// display and `matched` those with the required attributes, each `None`
/// where the call failed; `visual_ids`, where given, restricts the choice.
pub open spec fn is_choice(
    r: Result<EGLConfig, EGLError>,
    available: Option<EGLint>,
    matched: Option<Seq<Config>>,
    visual_ids: Option<Seq<EGLint>>,
    code: int,
) -> bool {
    if available is None {
        fails_with(r, EGLErrorKind::EnumerationFailed, "eglGetConfigs error"@, code)
    } else if available->0 < 1 {
        fails_with(r, EGLErrorKind::NoConfigs, "No EGL configs to choose from"@, code)
    } else if matched is None {
        fails_with(r, EGLErrorKind::EnumerationFailed, "eglChooseConfig error"@, code)
    } else if matched->0.len() == 0 {
        fails_with(
            r,
            EGLErrorKind::NoMatchingConfig,
            "No EGL configs with appropriate attributes"@,
            code,
        )
    } else if visual_ids is None {
        r == Ok::<EGLConfig, EGLError>(matched->0[0].handle)
    } else if some_has_visual(matched->0, visual_ids->0) {
        r is Ok && exists|i: int|
            is_first_with_visual(matched->0, visual_ids->0, i) && r->Ok_0
                == (#[trigger] matched->0[i]).handle
    } else {
        fails_with(r, EGLErrorKind::NoMatchingConfig, "could not find egl configuration"@, code)
    }
}

/// Where configurations are offered and exactly one of them has a visual
/// of `ids`, that one is chosen; where no visuals are required, the first
/// configuration is.
pub proof fn only_visual_is_chosen(
    r: Result<EGLConfig, EGLError>,
    available: EGLint,
    matched: Seq<Config>,
    ids: Seq<EGLint>,
    code: int,
    i: int,
)
    requires
        available >= 1,
        0 <= i < matched.len(),
        has_visual(matched[i], ids),
        forall|j: int| 0 <= j < matched.len() && j != i ==> !has_visual(matched[j], ids),
    ensures
        is_choice(r, Some(available), Some(matched), Some(ids), code) ==> r == Ok::<
            EGLConfig,
            EGLError,
        >(matched[i].handle),
        is_choice(r, Some(available), Some(matched), None, code) ==> r == Ok::<
            EGLConfig,
            EGLError,
        >(matched[0].handle),
{
}

/// A display without configurations, or without one of the required
/// attributes, is refused whatever visuals are asked for.
pub proof fn no_config_is_refused(
    r: Result<EGLConfig, EGLError>,
    available: EGLint,
    matched: Option<Seq<Config>>,
    visual_ids: Option<Seq<EGLint>>,
    code: int,
)
    requires
        is_choice(r, Some(available), matched, visual_ids, code),
    ensures
        available < 1 ==> fails_with(
            r,
            EGLErrorKind::NoConfigs,
            "No EGL configs to choose from"@,
            code,
        ),
        available >= 1 && matched is Some && matched->0.len() == 0 ==> fails_with(
            r,
            EGLErrorKind::NoMatchingConfig,
            "No EGL configs with appropriate attributes"@,
            code,
        ),
{
}

#[verifier::loop_isolation(false)]
fn visual_listed(config: &Config, ids: &Vec<EGLint>) -> (b: bool)
    ensures
        b == has_visual(*config, ids@),
{
    match config.native_visual_id {
        None => false,
        Some(id) => {
            let mut k: usize = 0;
            while k < ids.len()
                invariant
                    k <= ids@.len(),
                    forall|j: int| 0 <= j < k ==> ids@[j] != id,
                decreases ids@.len() - k,
            {
                if ids[k] == id {
                    return true;
                }
                k = k + 1;
            }
            false
        },
    }
}

impl EGLDisplay {
    /// The handle of the connection.
    pub closed spec fn handle(&self) -> EGLDisplayHandle {
        self.display_raw
    }

    /// The EGL version that initialisation reported, if it has succeeded.
    pub closed spec fn version(&self) -> Option<(EGLint, EGLint)> {
        self.version
    }

    /// The attribute list for a display on the device platform: the DRM
    /// master descriptor, then the end mark.
    pub fn platform_attributes(master_fd: i32) -> (attributes: Vec<EGLint>)
        ensures
            attributes@ == seq![DRM_MASTER_FD_EXT, master_fd, NONE],
    {
        let mut attributes: Vec<EGLint> = Vec::new();
        attributes.push(DRM_MASTER_FD_EXT);
        attributes.push(master_fd);
        attributes.push(NONE);
        attributes
    }

    /// The attribute list that configurations are filtered by.
    pub fn config_attributes() -> (attributes: Vec<EGLint>)
        ensures
            attributes@ == required_attributes(),
    {
        let mut attributes: Vec<EGLint> = Vec::new();
        attributes.push(SURFACE_TYPE);
        attributes.push(STREAM_BIT_KHR);
        attributes.push(RED_SIZE);
        attributes.push(1);
        attributes.push(GREEN_SIZE);
        attributes.push(1);
        attributes.push(BLUE_SIZE);
        attributes.push(1);
        attributes.push(ALPHA_SIZE);
        attributes.push(0);
        attributes.push(RENDERABLE_TYPE);
        attributes.push(OPENGL_ES2_BIT);
        attributes.push(NONE);
        attributes
    }

    /// The connection behind the handle that generic display creation
    /// returned; the null handle is a failure.
    pub fn new(display_raw: EGLDisplayHandle, code: EGLint) -> (r: Result<Self, EGLError>)
        ensures
            display_raw != NO_DISPLAY ==> r is Ok && r->Ok_0.handle() == display_raw
                && r->Ok_0.version() is None,
            display_raw == NO_DISPLAY ==> fails_with(
                r,
                EGLErrorKind::InitializationFailed,
                "EGLDisplay::new() Failed to create display"@,
                code as int,
            ),
    {
        if display_raw == NO_DISPLAY {
            Err(
                EGLError::new(
                    EGLErrorKind::InitializationFailed,
                    "EGLDisplay::new() Failed to create display",
                    code,
                ),
            )
        } else {
            Ok(Self { display_raw, version: None })
        }
    }

    /// The connection behind the handle that platform display creation
    /// returned; `None` where its entry point could not be resolved.
    pub fn from_platform(display_raw: Option<EGLDisplayHandle>, code: EGLint) -> (r: Result<
        Self,
        EGLError,
    >)
        ensures
            match display_raw {
                None => fails_with(
                    r,
                    EGLErrorKind::CapabilityMissing,
                    "cannot load eglGetPlatformDisplayEXT"@,
                    code as int,
                ),
                Some(raw) => if raw == NO_DISPLAY {
                    fails_with(
                        r,
                        EGLErrorKind::InitializationFailed,
                        "EGLDisplay::fromPlatform() Failed to create display"@,
                        code as int,
                    )
                } else {
                    r is Ok && r->Ok_0.handle() == raw && r->Ok_0.version() is None
                },
            },
    {
        match display_raw {
            None => Err(
                EGLError::new(
                    EGLErrorKind::CapabilityMissing,
                    "cannot load eglGetPlatformDisplayEXT",
                    code,
                ),
            ),
            Some(raw) => {
                if raw == NO_DISPLAY {
                    Err(
                        EGLError::new(
                            EGLErrorKind::InitializationFailed,
                            "EGLDisplay::fromPlatform() Failed to create display",
                            code,
                        ),
                    )
                } else {
                    Ok(Self { display_raw: raw, version: None })
                }
            },
        }
    }

    /// Whether the generic display is to be tried: exactly when the
    /// preferred, platform display could not be had.
    pub fn falls_back(preferred: &Result<Self, EGLError>) -> (b: bool)
        ensures
            b == (preferred is Err),
    {
        preferred.is_err()
    }

    /// The handle of the connection.
    pub fn raw_ref(&self) -> (raw: &EGLDisplayHandle)
        ensures
            *raw == self.handle(),
    {
        &self.display_raw
    }

    /// Takes note of the result of initialisation: the version pair, or
    /// `None` where the EGL library refused.
    pub fn initialize(&mut self, version: Option<(EGLint, EGLint)>, code: EGLint) -> (r: Result<
        (EGLint, EGLint),
        EGLError,
    >)
        ensures
            final(self).handle() == old(self).handle(),
            match version {
                Some(pair) => r == Ok::<(EGLint, EGLint), EGLError>(pair) && final(self).version()
                    == Some(pair),
                None => fails_with(
                    r,
                    EGLErrorKind::InitializationFailed,
                    "Failed to initialize display"@,
                    code as int,
                ) && final(self).version() == old(self).version(),
            },
    {
        match version {
            Some(pair) => {
                self.version = Some(pair);
                Ok(pair)
            },
            None => Err(
                EGLError::new(
                    EGLErrorKind::InitializationFailed,
                    "Failed to initialize display",
                    code,
                ),
            ),
        }
    }

    /// Chooses the configuration of the display from the answers of the EGL
    /// library. Without `visual_ids` the first matched configuration is
    /// taken; with them, the first whose native visual is one of them.
    #[verifier::loop_isolation(false)]
    pub fn choose_config(
        &mut self,
        available: Option<EGLint>,
        matched: Option<&Vec<Config>>,
        visual_ids: Option<&Vec<EGLint>>,
        code: EGLint,
    ) -> (r: Result<EGLConfig, EGLError>)
        ensures
            *final(self) == *old(self),
            is_choice(
                r,
                available,
                match matched {
                    Some(configs) => Some(configs@),
                    None => None,
                },
                match visual_ids {
                    Some(ids) => Some(ids@),
                    None => None,
                },
                code as int,
            ),
    {
        let count = match available {
            Some(count) => count,
            None => {
                return Err(
                    EGLError::new(EGLErrorKind::EnumerationFailed, "eglGetConfigs error", code),
                );
            },
        };
        if count < 1 {
            return Err(EGLError::new(EGLErrorKind::NoConfigs, "No EGL configs to choose from", code));
        }
        let configs = match matched {
            Some(configs) => configs,
            None => {
                return Err(
                    EGLError::new(EGLErrorKind::EnumerationFailed, "eglChooseConfig error", code),
                );
            },
        };
        if configs.len() == 0 {
            return Err(
                EGLError::new(
                    EGLErrorKind::NoMatchingConfig,
                    "No EGL configs with appropriate attributes",
                    code,
                ),
            );
        }
        let ids = match visual_ids {
            Some(ids) => ids,
            None => {
                return Ok(configs[0].handle);
            },
        };
        let mut i: usize = 0;
        while i < configs.len()
            invariant
                i <= configs@.len(),
                forall|j: int| 0 <= j < i ==> !has_visual(#[trigger] configs@[j], ids@),
            decreases configs@.len() - i,
        {
            if visual_listed(&configs[i], ids) {
                return Ok(configs[i].handle);
            }
            i = i + 1;
        }
        Err(
            EGLError::new(
                EGLErrorKind::NoMatchingConfig,
                "could not find egl configuration",
                code,
            ),
        )
    }

    /// The extensions of the display, from the extension string that the
    /// EGL library gave for it; `None` where it gave none.
    pub fn extensions(&self, list: Option<&str>, code: EGLint) -> (r: Result<Extensions, EGLError>)
        ensures
            match list {
                Some(text) => r is Ok && r->Ok_0@ == words(text@),
                None => fails_with(
                    r,
                    EGLErrorKind::EnumerationFailed,
                    "Retrieving EGL extension string failed."@,
                    code as int,
                ),
            },
    {
        Extensions::query(list, code)
    }

    /// Ends the connection: hands out the handle for the caller to
    /// terminate, and with it the last use of this value.
    pub fn terminate(self) -> (raw: EGLDisplayHandle)
        ensures
            raw == self.handle(),
    {
        self.display_raw
    }
}

} // verus!
