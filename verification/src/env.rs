//! The environment of a call: an ordered list of assignments with unique keys.

use vstd::prelude::*;
use vstd::string::*;

use crate::text::{c_prefix, decode_lossy, find_byte, first_index, lemma_first_index, lossy_text, raw_strings, same_text, texts};

verus! {

/// The model of an environment: its assignments, key and value, in order.
pub type Assignments = Seq<(Seq<char>, Seq<char>)>;

/// Some assignment in `e` is to `key`.
pub open spec fn has_key(e: Assignments, key: Seq<char>) -> bool {
    exists|i: int| 0 <= i < e.len() && (#[trigger] e[i]).0 == key
}

/// The position of an assignment to `key` in `e`, where there is one.
pub open spec fn key_index(e: Assignments, key: Seq<char>) -> int {
    choose|i: int| 0 <= i < e.len() && (#[trigger] e[i]).0 == key
}

/// No key is assigned twice in `e`.
pub open spec fn keys_unique(e: Assignments) -> bool {
    forall|i: int, j: int| 0 <= i < j < e.len() ==> (#[trigger] e[i]).0 != (#[trigger] e[j]).0
}

/// `e` after assigning `value` to `key`: an existing assignment is overwritten in
/// place, a new one goes to the end.
pub open spec fn put(e: Assignments, key: Seq<char>, value: Seq<char>) -> Assignments {
    if has_key(e, key) {
        e.update(key_index(e, key), (key, value))
    } else {
        e.push((key, value))
    }
}

/// `e` without its assignment to `key`.
pub open spec fn without(e: Assignments, key: Seq<char>) -> Assignments {
    if has_key(e, key) {
        e.remove(key_index(e, key))
    } else {
        e
    }
}

/// `e` as a mapping from key to value.
pub open spec fn mapping(e: Assignments) -> Map<Seq<char>, Seq<char>> {
    Map::new(|k: Seq<char>| has_key(e, k), |k: Seq<char>| e[key_index(e, k)].1)
}

/// The text `key=value` of one assignment.
pub open spec fn assignment_text(entry: (Seq<char>, Seq<char>)) -> Seq<char> {
    entry.0 + seq!['='] + entry.1
}

/// The `key=value` lines of an environment, in order.
pub open spec fn environment_lines(environment: Assignments) -> Seq<Seq<char>> {
    Seq::new(environment.len(), |i: int| assignment_text(environment[i]))
}

/// The assignment that the raw C string `raw` makes: the text before its first `=`
/// is the key, all that follows the value. `None` where it holds no `=`.
pub open spec fn parse_assignment(raw: Seq<u8>) -> Option<(Seq<char>, Seq<char>)> {
    let line = c_prefix(raw);
    let at = first_index(line, 0x3du8);
    if at < line.len() {
        Some((lossy_text(line.subrange(0, at)), lossy_text(line.subrange(at + 1, line.len() as int))))
    } else {
        None
    }
}

/// The environment that the raw entries make when taken in order: an entry without
/// `=` is skipped, a later assignment to a key replaces the earlier one.
pub open spec fn collapse(raws: Seq<Seq<u8>>) -> Assignments
    decreases raws.len(),
{
    if raws.len() == 0 {
        Seq::empty()
    } else {
        let before = collapse(raws.drop_last());
        match parse_assignment(raws.last()) {
            Some((key, value)) => put(before, key, value),
            None => before,
        }
    }
}

/// With unique keys, the position of a key is the one place where it stands.
pub proof fn lemma_key_index(e: Assignments, key: Seq<char>, i: int)
    requires
        keys_unique(e),
        0 <= i < e.len(),
        e[i].0 == key,
    ensures
        has_key(e, key),
        key_index(e, key) == i,
{
    let j = key_index(e, key);
    assert(e[j].0 == e[i].0);
}

/// An assignment keeps the keys unique and acts on the mapping as `Map::insert`
/// does: the key now has the new value, every other key keeps its own.
pub proof fn lemma_put(e: Assignments, key: Seq<char>, value: Seq<char>)
    requires
        keys_unique(e),
    ensures
        keys_unique(put(e, key, value)),
        has_key(put(e, key, value), key),
        mapping(put(e, key, value)) == mapping(e).insert(key, value),
{
    let p = put(e, key, value);
    let want = mapping(e).insert(key, value);
    if has_key(e, key) {
        assert(forall|j: int| 0 <= j < e.len() ==> (#[trigger] p[j]).0 == e[j].0);
    } else {
        assert(forall|j: int| 0 <= j < e.len() ==> (#[trigger] p[j]) == e[j]);
        assert(forall|j: int| 0 <= j < e.len() ==> (#[trigger] e[j]).0 != key);
        assert(p[e.len() as int].0 == key);
    }
    assert(keys_unique(p));
    assert forall|q: Seq<char>| has_key(p, q) == (q == key || has_key(e, q)) by {
        if has_key(p, q) {
            let j = key_index(p, q);
            assert(j < e.len() ==> e[j].0 == q || q == key);
        }
        if has_key(e, q) {
            assert(p[key_index(e, q)].0 == q);
        }
    }
    assert forall|q: Seq<char>| has_key(p, q) implies mapping(p)[q] == want[q] by {
        let j = key_index(p, q);
        if q == key {
            if has_key(e, key) {
                lemma_key_index(e, key, key_index(e, key));
                lemma_key_index(e, key, j);
            }
        } else {
            lemma_key_index(e, q, j);
        }
    }
    assert(mapping(p) =~= want);
}

/// A removal keeps the keys unique and acts on the mapping as `Map::remove` does:
/// the key is gone, every other key keeps its value.
pub proof fn lemma_without(e: Assignments, key: Seq<char>)
    requires
        keys_unique(e),
    ensures
        keys_unique(without(e, key)),
        !has_key(without(e, key), key),
        mapping(without(e, key)) == mapping(e).remove(key),
{
    let w = without(e, key);
    let want = mapping(e).remove(key);
    if has_key(e, key) {
        let i = key_index(e, key);
        // Position `j` of `w` is position `origin(j)` of `e`.
        let origin = |j: int| if j < i { j } else { j + 1 };
        assert(forall|j: int| 0 <= j < w.len() ==> (#[trigger] w[j]) == e[origin(j)]);
        assert forall|a: int, b: int| 0 <= a < b < w.len() implies (#[trigger] w[a]).0 != (
        #[trigger] w[b]).0 by {
            assert(e[origin(a)].0 != e[origin(b)].0);
        }
        assert forall|j: int| 0 <= j < w.len() implies (#[trigger] w[j]).0 != key by {
            lemma_key_index(e, key, i);
            if e[origin(j)].0 == key {
                lemma_key_index(e, key, origin(j));
            }
        }
        assert forall|q: Seq<char>| has_key(w, q) == (q != key && has_key(e, q)) by {
            if has_key(w, q) {
                assert(e[origin(key_index(w, q))].0 == q);
            }
            if has_key(e, q) && q != key {
                let j = key_index(e, q);
                assert(w[if j < i { j } else { j - 1 }].0 == q);
            }
        }
        assert forall|q: Seq<char>| has_key(w, q) implies mapping(w)[q] == want[q] by {
            lemma_key_index(e, q, origin(key_index(w, q)));
        }
    }
    assert(mapping(w) =~= want);
}

/// Every environment that `collapse` builds has unique keys.
pub proof fn lemma_collapse_unique(raws: Seq<Seq<u8>>)
    ensures
        keys_unique(collapse(raws)),
    decreases raws.len(),
{
    if raws.len() > 0 {
        lemma_collapse_unique(raws.drop_last());
        match parse_assignment(raws.last()) {
            Some((key, value)) => lemma_put(collapse(raws.drop_last()), key, value),
            None => {},
        }
    }
}

/// The last assignment wins: an entry `key=value` that comes after `raws` leaves
/// `key` mapped to `value`, whatever `raws` assigned to it, and leaves every other
/// key as `raws` left it.
pub proof fn lemma_last_assignment_wins(raws: Seq<Seq<u8>>, raw: Seq<u8>)
    requires
        parse_assignment(raw) is Some,
    ensures
        mapping(collapse(raws.push(raw))) == mapping(collapse(raws)).insert(
            parse_assignment(raw).unwrap().0,
            parse_assignment(raw).unwrap().1,
        ),
        mapping(collapse(raws.push(raw)))[parse_assignment(raw).unwrap().0] == parse_assignment(raw).unwrap().1,
{
    let all = raws.push(raw);
    assert(all.drop_last() =~= raws);
    assert(all.last() == raw);
    lemma_collapse_unique(raws);
    lemma_put(collapse(raws), parse_assignment(raw).unwrap().0, parse_assignment(raw).unwrap().1);
}

/// An entry without `=` is dropped: the environment is the one that the other
/// entries make.
pub proof fn lemma_malformed_dropped(raws: Seq<Seq<u8>>, raw: Seq<u8>)
    requires
        first_index(c_prefix(raw), 0x3du8) == c_prefix(raw).len(),
    ensures
        collapse(raws.push(raw)) == collapse(raws),
{
    let all = raws.push(raw);
    assert(all.drop_last() =~= raws);
    assert(all.last() == raw);
}

/// The environment of a call.
///
/// Assignments keep the order in which their keys first came; no key stands twice.
pub struct Environment {
    entries: Vec<(String, String)>,
}

impl View for Environment {
    type V = Seq<(Seq<char>, Seq<char>)>;

    closed spec fn view(&self) -> Seq<(Seq<char>, Seq<char>)> {
        Seq::new(self.entries@.len(), |i: int| (self.entries@[i].0@, self.entries@[i].1@))
    }
}

impl Environment {
    /// The invariant of the type: keys are unique.
    pub open spec fn wf(&self) -> bool {
        keys_unique(self@)
    }

    /// The environment as a mapping.
    pub open spec fn map(&self) -> Map<Seq<char>, Seq<char>> {
        mapping(self@)
    }

    /// The empty environment.
    pub fn new() -> (env: Environment)
        ensures
            env@ == Seq::<(Seq<char>, Seq<char>)>::empty(),
            env.wf(),
    {
        let env = Environment { entries: Vec::new() };
        assert(env@ =~= Seq::<(Seq<char>, Seq<char>)>::empty());
        env
    }

    /// The number of assignments.
    pub fn len(&self) -> (n: usize)
        ensures
            n == self@.len(),
    {
        self.entries.len()
    }

    fn position(&self, key: &str) -> (at: Option<usize>)
        ensures
            match at {
                Some(i) => i < self@.len() && self@[i as int].0 == key@,
                None => !has_key(self@, key@),
            },
    {
        let mut i: usize = 0;
        while i < self.entries.len()
            invariant
                0 <= i <= self.entries.len(),
                forall|j: int| 0 <= j < i ==> (#[trigger] self@[j]).0 != key@,
            decreases self.entries.len() - i,
        {
            if same_text(self.entries[i].0.as_str(), key) {
                return Some(i);
            }
            i = i + 1;
        }
        None
    }

    /// Tells whether `key` is assigned.
    pub fn contains_key(&self, key: &str) -> (found: bool)
        ensures
            found == has_key(self@, key@),
            found == self.map().dom().contains(key@),
    {
        self.position(key).is_some()
    }

    /// The value assigned to `key`, if any.
    pub fn get(&self, key: &str) -> (value: Option<String>)
        requires
            self.wf(),
        ensures
            value is Some == self.map().dom().contains(key@),
            value is Some ==> value->0@ == self.map()[key@],
    {
        match self.position(key) {
            Some(i) => {
                proof {
                    lemma_key_index(self@, key@, i as int);
                }
                Some(self.entries[i].1.clone())
            },
            None => None,
        }
    }

    /// Assigns `value` to `key`, in place of an earlier assignment to it if there is
    /// one, else at the end.
    pub fn insert(&mut self, key: String, value: String)
        requires
            old(self).wf(),
        ensures
            final(self).wf(),
            final(self)@ == put(old(self)@, key@, value@),
            final(self).map() == old(self).map().insert(key@, value@),
    {
        let ghost before = self@;
        let ghost k = key@;
        let ghost v = value@;
        match self.position(key.as_str()) {
            Some(i) => {
                proof {
                    lemma_key_index(before, k, i as int);
                }
                self.entries.set(i, (key, value));
            },
            None => {
                self.entries.push((key, value));
            },
        }
        proof {
            lemma_put(before, k, v);
            assert(self@ =~= put(before, k, v));
        }
    }

    /// Removes the assignment to `key`, if there is one.
    pub fn remove(&mut self, key: &str)
        requires
            old(self).wf(),
        ensures
            final(self).wf(),
            final(self)@ == without(old(self)@, key@),
            final(self).map() == old(self).map().remove(key@),
    {
        let ghost before = self@;
        match self.position(key) {
            Some(i) => {
                proof {
                    lemma_key_index(before, key@, i as int);
                }
                let _ = self.entries.remove(i);
            },
            None => {},
        }
        proof {
            lemma_without(before, key@);
            assert(self@ =~= without(before, key@));
        }
    }

    /// The key of the assignment at `index`.
    pub fn key_at(&self, index: usize) -> (key: String)
        requires
            index < self@.len(),
        ensures
            key@ == self@[index as int].0,
    {
        self.entries[index].0.clone()
    }

    /// The value of the assignment at `index`.
    pub fn value_at(&self, index: usize) -> (value: String)
        requires
            index < self@.len(),
        ensures
            value@ == self@[index as int].1,
    {
        self.entries[index].1.clone()
    }

    /// The assignments as `key=value` strings, in order.
    pub fn to_strings(&self) -> (lines: Vec<String>)
        ensures
            texts(lines@) == environment_lines(self@),
    {
        let mut lines: Vec<String> = Vec::new();
        let mut i: usize = 0;
        while i < self.entries.len()
            invariant
                0 <= i <= self.entries.len(),
                lines@.len() == i,
                forall|j: int| 0 <= j < i ==> (#[trigger] lines@[j])@ == assignment_text(self@[j]),
            decreases self.entries.len() - i,
        {
            let mut line = self.entries[i].0.clone();
            proof {
                reveal_strlit("=");
            }
            line.append("=");
            line.append(self.entries[i].1.as_str());
            assert(line@ =~= assignment_text(self@[i as int])) by {
                assert("="@ =~= seq!['=']);
            }
            lines.push(line);
            i = i + 1;
        }
        assert(texts(lines@) =~= environment_lines(self@));
        lines
    }
}

/// The raw environment array of a call: its C strings, in order, up to the
/// terminating null pointer.
pub struct Env {
    data: Vec<Vec<u8>>,
}

impl View for Env {
    type V = Seq<Seq<u8>>;

    closed spec fn view(&self) -> Seq<Seq<u8>> {
        raw_strings(self.data@)
    }
}

impl Env {
    /// Takes the C strings of an environment array.
    pub fn new(data: Vec<Vec<u8>>) -> (env: Env)
        ensures
            env@ == raw_strings(data@),
    {
        Env { data }
    }

    /// Builds the environment that the entries make: each is split at its first
    /// `=`, one without `=` is dropped, a later assignment to a key overwrites the
    /// earlier one.
    pub fn to_map(&self) -> (env: Environment)
        ensures
            env@ == collapse(self@),
            env.wf(),
    {
        let mut env = Environment::new();
        let mut i: usize = 0;
        assert(self@.subrange(0, 0) =~= Seq::<Seq<u8>>::empty());
        while i < self.data.len()
            invariant
                0 <= i <= self.data.len(),
                env.wf(),
                env@ == collapse(self@.subrange(0, i as int)),
            decreases self.data.len() - i,
        {
            let ghost done = self@.subrange(0, i as int);
            let ghost next = self@.subrange(0, i as int + 1);
            assert(next.drop_last() =~= done);
            assert(next.last() == self.data@[i as int]@);
            match split_assignment(self.data[i].as_slice()) {
                Some((key, value)) => env.insert(key, value),
                None => {},
            }
            i = i + 1;
        }
        assert(self@.subrange(0, i as int) =~= self@);
        env
    }
}

/// Parses one raw entry of an environment array.
pub fn split_assignment(raw: &[u8]) -> (entry: Option<(String, String)>)
    ensures
        match entry {
            Some((key, value)) => parse_assignment(raw@) == Some((key@, value@)),
            None => parse_assignment(raw@) is None,
        },
{
    proof {
        lemma_first_index(raw@, 0u8);
    }
    let end = find_byte(raw, 0u8);
    let line = &raw[0..end];
    proof {
        lemma_first_index(line@, 0x3du8);
    }
    let at = find_byte(line, 0x3du8);
    if at < line.len() {
        let key = decode_lossy(&line[0..at]);
        let value = decode_lossy(&line[at + 1..line.len()]);
        Some((key, value))
    } else {
        None
    }
}

} // verus!
