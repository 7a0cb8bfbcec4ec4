//! Turning a plan back into the C strings that the genuine implementation takes.

use vstd::prelude::*;
use vstd::string::*;
use vstd::utf8::*;

use crate::env::environment_lines;
use crate::error::ExecError;
use crate::rewrite::{PlanView, RewritePlan};
use crate::text::{
    c_prefix, c_text, find_byte, first_index, lemma_first_index, lemma_first_index_unique, raw_strings,
    texts,
};

verus! {

/// `text` can cross to C: its UTF-8 form holds no NUL.
pub open spec fn crossable(text: Seq<char>) -> bool {
    first_index(encode_utf8(text), 0u8) == encode_utf8(text).len()
}

/// Every text of the sequence can cross to C.
pub open spec fn all_crossable(list: Seq<Seq<char>>) -> bool {
    forall|i: int| 0 <= i < list.len() ==> crossable(#[trigger] list[i])
}

/// `text` as a C string: its UTF-8 form and a terminating NUL.
pub open spec fn c_bytes(text: Seq<char>) -> Seq<u8> {
    encode_utf8(text).push(0u8)
}

/// The C strings of a sequence of texts.
pub open spec fn c_strings(list: Seq<Seq<char>>) -> Seq<Seq<u8>> {
    Seq::new(list.len(), |i: int| c_bytes(list[i]))
}

/// The buffers of one call of the genuine implementation. Each is NUL-terminated
/// and holds no other NUL; the arrays come without their terminating null pointer,
/// which only the caller of the genuine implementation can add.
pub struct CallImage {
    pub path: Vec<u8>,
    pub argv: Vec<Vec<u8>>,
    pub envp: Vec<Vec<u8>>,
}

/// The model of a `CallImage`.
pub struct ImageView {
    pub path: Seq<u8>,
    pub argv: Seq<Seq<u8>>,
    pub envp: Seq<Seq<u8>>,
}

impl View for CallImage {
    type V = ImageView;

    open spec fn view(&self) -> ImageView {
        ImageView {
            path: self.path@,
            argv: raw_strings(self.argv@),
            envp: raw_strings(self.envp@),
        }
    }
}

/// Every string of the plan can cross to C.
pub open spec fn plan_crossable(plan: PlanView) -> bool {
    &&& crossable(plan.real_path)
    &&& all_crossable(plan.arguments)
    &&& all_crossable(environment_lines(plan.environment))
}

/// The buffers that a plan is serialized to.
pub open spec fn image_of(plan: PlanView) -> ImageView {
    ImageView {
        path: c_bytes(plan.real_path),
        argv: c_strings(plan.arguments),
        envp: c_strings(environment_lines(plan.environment)),
    }
}

/// Makes a NUL-terminated buffer of `text`, unless the text holds a NUL itself.
pub fn to_c_bytes(text: &str) -> (buffer: Option<Vec<u8>>)
    ensures
        buffer is Some == crossable(text@),
        buffer is Some ==> buffer->0@ == c_bytes(text@),
{
    let mut bytes = text.as_bytes_vec();
    let at = find_byte(bytes.as_slice(), 0u8);
    if at == bytes.len() {
        bytes.push(0u8);
        Some(bytes)
    } else {
        None
    }
}

/// Makes the buffers of a list of strings, unless one of them holds a NUL.
pub fn to_c_strings(list: &Vec<String>) -> (buffers: Option<Vec<Vec<u8>>>)
    ensures
        buffers is Some == all_crossable(texts(list@)),
        buffers is Some ==> raw_strings(buffers->0@) == c_strings(texts(list@)),
{
    let mut buffers: Vec<Vec<u8>> = Vec::new();
    let mut i: usize = 0;
    while i < list.len()
        invariant
            0 <= i <= list.len(),
            buffers@.len() == i,
            forall|j: int| 0 <= j < i ==> crossable(#[trigger] texts(list@)[j]),
            forall|j: int| 0 <= j < i ==> (#[trigger] buffers@[j])@ == c_bytes(texts(list@)[j]),
        decreases list.len() - i,
    {
        match to_c_bytes(list[i].as_str()) {
            Some(buffer) => buffers.push(buffer),
            None => {
                assert(!crossable(texts(list@)[i as int]));
                return None;
            },
        }
        i = i + 1;
    }
    assert(raw_strings(buffers@) =~= c_strings(texts(list@)));
    Some(buffers)
}

/// Serializes a plan for the genuine implementation. Fails with `EmbeddedNul` where
/// a string of the plan holds a NUL, and only then.
pub fn serialize(plan: &RewritePlan) -> (image: Result<CallImage, ExecError>)
    ensures
        image is Ok == plan_crossable(plan@),
        image is Ok ==> image->Ok_0@ == image_of(plan@),
        image is Err ==> image->Err_0 == ExecError::EmbeddedNul,
{
    let path = match to_c_bytes(plan.real_path.as_str()) {
        Some(buffer) => buffer,
        None => {
            return Err(ExecError::EmbeddedNul);
        },
    };
    let argv = match to_c_strings(&plan.arguments) {
        Some(buffers) => buffers,
        None => {
            return Err(ExecError::EmbeddedNul);
        },
    };
    let lines = plan.environment.to_strings();
    let envp = match to_c_strings(&lines) {
        Some(buffers) => buffers,
        None => {
            return Err(ExecError::EmbeddedNul);
        },
    };
    Ok(CallImage { path, argv, envp })
}

/// What is serialized reads back unchanged: the C string made of a text that can
/// cross to C, read as a C string again, is that text.
pub proof fn lemma_c_round_trip(text: Seq<char>)
    requires
        crossable(text),
    ensures
        c_text(c_bytes(text)) == text,
{
    let encoded = encode_utf8(text);
    let buffer = c_bytes(text);
    lemma_first_index(encoded, 0u8);
    assert(forall|j: int| 0 <= j < encoded.len() ==> buffer[j] == encoded[j]);
    lemma_first_index_unique(buffer, 0u8, encoded.len() as int);
    assert(c_prefix(buffer) =~= encoded);
    encode_utf8_valid_utf8(text);
    encode_utf8_decode_utf8(text);
}

/// What was read from C can go back to C: the text of a C string whose bytes up
/// to the terminator are valid UTF-8 holds no NUL.
pub proof fn lemma_c_text_crosses(raw: Seq<u8>)
    requires
        valid_utf8(c_prefix(raw)),
    ensures
        crossable(c_text(raw)),
{
    let line = c_prefix(raw);
    lemma_first_index(raw, 0u8);
    decode_utf8_encode_utf8(line);
    assert(forall|j: int| 0 <= j < line.len() ==> line[j] == raw[j]);
    lemma_first_index_unique(line, 0u8, line.len() as int);
}

} // verus!
