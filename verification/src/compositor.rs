//! The compositor's notion of time.

use vstd::prelude::*;
use vstd::string::*;

verus! {

/// A compositor with the clock that presentation times are taken from.
#[derive(Debug)]
pub struct Compositor {
    presentation_clock: i32,
}

impl Compositor {
    /// The id of the presentation clock.
    pub closed spec fn clock(&self) -> i32 {
        self.presentation_clock
    }

    /// A compositor on the clock `clock_id`, once the clock was read with
    /// the status `status`: a negative status means that the clock cannot be
    /// used.
    pub fn new(clock_id: i32, status: i32) -> (r: Result<Compositor, String>)
        ensures
            status >= 0 ==> r is Ok && r->Ok_0.clock() == clock_id,
            status < 0 ==> r is Err && r->Err_0@
                == "Error retriving time, clock_id probably invalid"@,
    {
        if status < 0 {
            return Err(String::from_str("Error retriving time, clock_id probably invalid"));
        }
        Ok(Compositor { presentation_clock: clock_id })
    }

    /// The id of the presentation clock.
    pub fn presentation_clock(&self) -> (id: i32)
        ensures
            id == self.clock(),
    {
        self.presentation_clock
    }
}

} // verus!
