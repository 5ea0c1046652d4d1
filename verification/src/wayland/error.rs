//! Errors of the Wayland library.

use vstd::prelude::*;
use vstd::string::*;

verus! {

/// A failed call into the Wayland library.
#[derive(Debug)]
pub struct WaylandError {
    message: String,
}

impl View for WaylandError {
    type V = Seq<char>;

    closed spec fn view(&self) -> Seq<char> {
        self.message@
    }
}

impl WaylandError {
    /// An error that owns its message.
    pub fn from_string(message: String) -> (e: Self)
        ensures
            e@ == message@,
    {
        Self { message }
    }

    /// An error with a copy of `message`.
    pub fn from_str(message: &str) -> (e: Self)
        ensures
            e@ == message@,
    {
        Self { message: message.to_owned() }
    }

    /// The text shown for the error.
    pub fn description(&self) -> (text: String)
        ensures
            text@ == "WaylandError: "@ + self@,
    {
        let mut text = String::from_str("WaylandError: ");
        text.append(self.message.as_str());
        text
    }
}

} // verus!
