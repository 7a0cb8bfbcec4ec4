//! Byte strings as they arrive from C, and the text they decode to.

use vstd::prelude::*;
use vstd::utf8::*;

verus! {

/// The text that `String::from_utf8_lossy` gives for bytes that are not valid
/// UTF-8: what decodes, with U+FFFD in place of what does not.
pub uninterp spec fn replaced_text(bytes: Seq<u8>) -> Seq<char>;

/// The lossy decoding of `bytes`: the text they encode where they are valid UTF-8,
/// else the text with replacements.
pub open spec fn lossy_text(bytes: Seq<u8>) -> Seq<char> {
    if valid_utf8(bytes) {
        decode_utf8(bytes)
    } else {
        replaced_text(bytes)
    }
}

/// Decodes bytes as UTF-8, replacing what does not decode.
///
/// Trusted: calls `String::from_utf8_lossy` of std. Valid UTF-8 is taken to come
/// back as the text it encodes; of other bytes the result is only taken to depend
/// on the bytes alone.
#[verifier::external_body]
pub(crate) fn decode_lossy(bytes: &[u8]) -> (text: String)
    ensures
        valid_utf8(bytes@) ==> text@ == decode_utf8(bytes@),
        !valid_utf8(bytes@) ==> text@ == replaced_text(bytes@),
{
    String::from_utf8_lossy(bytes).into_owned()
}

/// The position of the first `byte` in `s`, or the length of `s` where there is none.
pub open spec fn first_index(s: Seq<u8>, byte: u8) -> int
    decreases s.len(),
{
    if s.len() == 0 || s[0] == byte {
        0
    } else {
        1 + first_index(s.drop_first(), byte)
    }
}

/// What characterises `first_index`: nothing before it is `byte`, and it is `byte`
/// unless it is the end.
pub proof fn lemma_first_index(s: Seq<u8>, byte: u8)
    ensures
        0 <= first_index(s, byte) <= s.len(),
        forall|j: int| 0 <= j < first_index(s, byte) ==> s[j] != byte,
        first_index(s, byte) < s.len() ==> s[first_index(s, byte)] == byte,
    decreases s.len(),
{
    if s.len() == 0 || s[0] == byte {
    } else {
        let rest = s.drop_first();
        lemma_first_index(rest, byte);
        assert forall|j: int| 0 <= j < first_index(s, byte) implies s[j] != byte by {
            if j > 0 {
                assert(s[j] == rest[j - 1]);
            }
        }
        if first_index(rest, byte) < rest.len() {
            assert(s[first_index(s, byte)] == rest[first_index(rest, byte)]);
        }
    }
}

/// Any position with the properties of `lemma_first_index` is `first_index`.
pub proof fn lemma_first_index_unique(s: Seq<u8>, byte: u8, i: int)
    requires
        0 <= i <= s.len(),
        forall|j: int| 0 <= j < i ==> s[j] != byte,
        i < s.len() ==> s[i] == byte,
    ensures
        first_index(s, byte) == i,
{
    lemma_first_index(s, byte);
    let f = first_index(s, byte);
    if f < i {
        assert(s[f] != byte);
    } else if i < f {
        assert(s[i] != byte);
    }
}

/// Finds the first `byte` in `bytes`.
pub fn find_byte(bytes: &[u8], byte: u8) -> (i: usize)
    ensures
        i == first_index(bytes@, byte),
{
    let mut i: usize = 0;
    while i < bytes.len() && bytes[i] != byte
        invariant
            0 <= i <= bytes.len(),
            forall|j: int| 0 <= j < i ==> bytes@[j] != byte,
        decreases bytes.len() - i,
    {
        i = i + 1;
    }
    proof {
        lemma_first_index_unique(bytes@, byte, i as int);
    }
    i
}

/// `bytes` up to, and without, its first NUL.
pub open spec fn c_prefix(bytes: Seq<u8>) -> Seq<u8> {
    bytes.subrange(0, first_index(bytes, 0u8))
}

/// The text of a C string: the bytes before the first terminator, decoded lossily.
pub open spec fn c_text(bytes: Seq<u8>) -> Seq<char> {
    lossy_text(c_prefix(bytes))
}

/// Reads `bytes` as a C string: bounded at the first NUL, decoded lossily.
pub fn c_string(bytes: &[u8]) -> (text: String)
    ensures
        text@ == c_text(bytes@),
{
    proof {
        lemma_first_index(bytes@, 0u8);
    }
    let end = find_byte(bytes, 0u8);
    decode_lossy(&bytes[0..end])
}

/// The texts that a sequence of strings holds.
pub open spec fn texts(strings: Seq<String>) -> Seq<Seq<char>> {
    Seq::new(strings.len(), |i: int| strings[i]@)
}

/// The C strings' texts, one for each of `raws`.
pub open spec fn c_texts(raws: Seq<Seq<u8>>) -> Seq<Seq<char>> {
    Seq::new(raws.len(), |i: int| c_text(raws[i]))
}

/// The byte strings that a vector of buffers holds.
pub open spec fn raw_strings(data: Seq<Vec<u8>>) -> Seq<Seq<u8>> {
    Seq::new(data.len(), |i: int| data[i]@)
}

/// Tells whether two strings hold the same text.
pub fn same_text(a: &str, b: &str) -> (same: bool)
    ensures
        same == (a@ == b@),
{
    let x = a.as_bytes();
    let y = b.as_bytes();
    proof {
        encode_utf8_decode_utf8(a@);
        encode_utf8_decode_utf8(b@);
        assert(x@ == encode_utf8(a@));
        assert(y@ == encode_utf8(b@));
    }
    if x.len() != y.len() {
        return false;
    }
    let mut i: usize = 0;
    while i < x.len()
        invariant
            0 <= i <= x.len(),
            x.len() == y.len(),
            x@ == encode_utf8(a@),
            y@ == encode_utf8(b@),
            forall|j: int| 0 <= j < i ==> x@[j] == y@[j],
        decreases x.len() - i,
    {
        if x[i] != y[i] {
            assert(x@[i as int] != y@[i as int]);
            assert(x@ != y@);
            return false;
        }
        i = i + 1;
    }
    assert(x@ =~= y@);
    true
}

} // verus!
