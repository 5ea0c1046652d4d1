//! The renderer on a plain EGL display, which does not exist yet.

use vstd::prelude::*;
use vstd::string::*;

verus! {

/// The renderer on a plain EGL display.
#[derive(Debug)]
pub struct EglRenderer {}

impl EglRenderer {
    /// Always refused: no such renderer can be built yet.
    pub fn new(device_path: &str) -> (r: Result<EglRenderer, String>)
        ensures
            r is Err,
            r->Err_0@ == "not implemented yet"@,
    {
        Err(String::from_str("not implemented yet"))
    }
}

} // verus!
