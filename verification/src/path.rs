//! The target string of a call.

use vstd::prelude::*;

use crate::text::{c_string, c_text};

verus! {

/// The raw target of a call: one C string.
pub struct Path {
    data: Vec<u8>,
}

impl View for Path {
    type V = Seq<u8>;

    closed spec fn view(&self) -> Seq<u8> {
        self.data@
    }
}

impl Path {
    /// Takes the bytes of a C string.
    pub fn new(data: Vec<u8>) -> (path: Path)
        ensures
            path@ == data@,
    {
        Path { data }
    }

    /// The target as owned text: bounded at its first NUL and decoded lossily.
    pub fn to_path(&self) -> (text: String)
        ensures
            text@ == c_text(self@),
    {
        c_string(self.data.as_slice())
    }
}

} // verus!
