//! The argument array of a call.

use vstd::prelude::*;

use crate::text::{c_string, c_texts, raw_strings, texts};

verus! {

/// The raw argument array of a call: its C strings, in order, up to the
/// terminating null pointer.
pub struct Args {
    data: Vec<Vec<u8>>,
}

impl View for Args {
    type V = Seq<Seq<u8>>;

    closed spec fn view(&self) -> Seq<Seq<u8>> {
        raw_strings(self.data@)
    }
}

impl Args {
    /// Takes the C strings of an argument array.
    pub fn new(data: Vec<Vec<u8>>) -> (args: Args)
        ensures
            args@ == raw_strings(data@),
    {
        Args { data }
    }

    /// The arguments as owned strings, in order: each bounded at its first NUL and
    /// decoded lossily.
    pub fn to_vec(&self) -> (list: Vec<String>)
        ensures
            texts(list@) == c_texts(self@),
    {
        let mut list: Vec<String> = Vec::new();
        let mut i: usize = 0;
        while i < self.data.len()
            invariant
                0 <= i <= self.data.len(),
                list@.len() == i,
                forall|j: int| 0 <= j < i ==> (#[trigger] list@[j])@ == c_texts(self@)[j],
            decreases self.data.len() - i,
        {
            let text = c_string(self.data[i].as_slice());
            list.push(text);
            i = i + 1;
        }
        assert(texts(list@) =~= c_texts(self@));
        list
    }
}

} // verus!
