//! Wrapper around a finished payload string, the value handed to rendering
//! collaborators.

use vstd::prelude::*;

verus! {

/// A finished payload, ready to be read back or rendered.
#[derive(Debug)]
pub struct Formatter {
    payload: String,
}

impl View for Formatter {
    type V = Seq<char>;

    closed spec fn view(&self) -> Seq<char> {
        self.payload@
    }
}

impl Formatter {
    /// Wraps a payload string.
    pub fn new(payload: &str) -> (r: Self)
        ensures
            r@ == payload@,
    {
        Formatter { payload: payload.to_owned() }
    }

    /// The payload as a string.
    pub fn to_string(&self) -> (r: String)
        ensures
            r@ == self@,
    {
        self.payload.clone()
    }
}

} // verus!
