//! One intercepted call in owned form.

use vstd::prelude::*;
use vstd::utf8::*;

use crate::args::Args;
use crate::env::{Assignments, Environment};
use crate::error::ExecError;
use crate::path::Path;
use crate::text::{c_string, c_text, c_texts, find_byte, first_index, texts};

verus! {

/// What a call names as its target.
pub enum TargetSpec {
    /// A path, absolute or relative, used as it stands.
    Path(String),
    /// A bare program name that has to be looked up on the search path first.
    Name(String),
}

/// The model of a `TargetSpec`.
pub enum TargetView {
    Path(Seq<char>),
    Name(Seq<char>),
}

impl View for TargetSpec {
    type V = TargetView;

    open spec fn view(&self) -> TargetView {
        match self {
            TargetSpec::Path(text) => TargetView::Path(text@),
            TargetSpec::Name(text) => TargetView::Name(text@),
        }
    }
}

/// `text` holds no slash, so a searching call looks it up on the search path.
pub open spec fn is_bare_name(text: Seq<char>) -> bool {
    first_index(encode_utf8(text), 0x2fu8) == encode_utf8(text).len()
}

/// The target that `text` names: a bare name where the call searches and the text
/// holds no slash, else a path.
pub open spec fn target_of(text: Seq<char>, search: bool) -> TargetView {
    if search && is_bare_name(text) {
        TargetView::Name(text)
    } else {
        TargetView::Path(text)
    }
}

/// The path that a target resolves to, given what the search-path lookup found.
pub open spec fn resolution(target: TargetView, found: Option<Seq<char>>) -> Result<
    Seq<char>,
    ExecError,
> {
    match target {
        TargetView::Path(path) => Ok(path),
        TargetView::Name(_) => match found {
            Some(path) => Ok(path),
            None => Err(ExecError::NameUnresolved),
        },
    }
}

impl TargetSpec {
    /// Classifies the target text of a call; `search` tells whether the call is one
    /// of those that look bare names up on the search path.
    pub fn new(text: String, search: bool) -> (target: TargetSpec)
        ensures
            target@ == target_of(text@, search),
    {
        if !search {
            return TargetSpec::Path(text);
        }
        let bytes = text.as_str().as_bytes();
        let at = find_byte(bytes, 0x2fu8);
        if at == bytes.len() {
            TargetSpec::Name(text)
        } else {
            TargetSpec::Path(text)
        }
    }

    /// Resolves the target to a concrete path. `found` is what the lookup of a bare
    /// name on the search path gave; it is not read for a path. A bare name that was
    /// not found fails with `NameUnresolved`.
    pub fn resolve(&self, found: Option<String>) -> (path: Result<String, ExecError>)
        ensures
            match path {
                Ok(text) => resolution(self@, option_text(found)) == Ok::<Seq<char>, ExecError>(text@),
                Err(error) => resolution(self@, option_text(found)) == Err::<Seq<char>, ExecError>(error),
            },
    {
        match self {
            TargetSpec::Path(text) => Ok(text.clone()),
            TargetSpec::Name(_) => match found {
                Some(path) => Ok(path),
                None => Err(ExecError::NameUnresolved),
            },
        }
    }
}

/// The text of an optional string.
pub open spec fn option_text(text: Option<String>) -> Option<Seq<char>> {
    match text {
        Some(t) => Some(t@),
        None => None,
    }
}

/// One intercepted call: its target, its arguments in order, and its environment.
pub struct ExecRequest {
    pub target: TargetSpec,
    pub arguments: Vec<String>,
    pub environment: Environment,
}

/// The model of an `ExecRequest`.
pub struct RequestView {
    pub target: TargetView,
    pub arguments: Seq<Seq<char>>,
    pub environment: Assignments,
}

impl View for ExecRequest {
    type V = RequestView;

    open spec fn view(&self) -> RequestView {
        RequestView {
            target: self.target@,
            arguments: texts(self.arguments@),
            environment: self.environment@,
        }
    }
}

/// The values of a variadic argument list up to its first null.
pub open spec fn until_null(values: Seq<Option<Seq<u8>>>) -> Seq<Seq<u8>>
    decreases values.len(),
{
    if values.len() == 0 || values[0] is None {
        Seq::empty()
    } else {
        seq![values[0]->0] + until_null(values.drop_first())
    }
}

/// The raw values that a vector of optional buffers holds.
pub open spec fn raw_values(list: Seq<Option<Vec<u8>>>) -> Seq<Option<Seq<u8>>> {
    Seq::new(
        list.len(),
        |i: int|
            match list[i] {
                Some(bytes) => Some(bytes@),
                None => None,
            },
    )
}

/// The request that a call makes of a raw target, raw arguments and an environment.
pub open spec fn ingested(
    path: Seq<u8>,
    search: bool,
    arguments: Seq<Seq<u8>>,
    environment: Assignments,
) -> RequestView {
    RequestView {
        target: target_of(c_text(path), search),
        arguments: c_texts(arguments),
        environment,
    }
}

impl ExecRequest {
    /// The invariant of the type: that of its environment.
    pub open spec fn wf(&self) -> bool {
        self.environment.wf()
    }

    /// Takes in a call of the fixed-array form: a target and an argument array.
    pub fn from_array(path: &Path, search: bool, argv: &Args, environment: Environment) -> (request:
        ExecRequest)
        requires
            environment.wf(),
        ensures
            request.wf(),
            request@ == ingested(path@, search, argv@, environment@),
    {
        ExecRequest {
            target: TargetSpec::new(path.to_path(), search),
            arguments: argv.to_vec(),
            environment,
        }
    }

    /// Takes in a call of the variadic form: a target and the values of the argument
    /// list as they are pulled off one by one, `None` for a null pointer. What
    /// follows the first null is not read.
    pub fn from_list(
        path: &Path,
        search: bool,
        values: &Vec<Option<Vec<u8>>>,
        environment: Environment,
    ) -> (request: ExecRequest)
        requires
            environment.wf(),
        ensures
            request.wf(),
            request@ == ingested(path@, search, until_null(raw_values(values@)), environment@),
    {
        let ghost all = raw_values(values@);
        let mut arguments: Vec<String> = Vec::new();
        let mut i: usize = 0;
        let mut open: bool = true;
        assert(all.subrange(0, all.len() as int) =~= all);
        while open && i < values.len()
            invariant
                0 <= i <= values.len(),
                all == raw_values(values@),
                open ==> until_null(all) == until_null(all.subrange(0, i as int)) + until_null(
                    all.subrange(i as int, all.len() as int),
                ),
                open ==> forall|j: int| 0 <= j < i ==> (#[trigger] all[j]) is Some,
                !open ==> until_null(all) == until_null(all.subrange(0, i as int)),
                texts(arguments@) == c_texts(until_null(all.subrange(0, i as int))),
            decreases values.len() - i + if open { 1int } else { 0int },
        {
            let ghost head = all.subrange(0, i as int);
            let ghost tail = all.subrange(i as int, all.len() as int);
            assert(tail[0] == all[i as int]);
            match &values[i] {
                None => {
                    assert(until_null(tail) =~= Seq::<Seq<u8>>::empty());
                    assert(until_null(all) =~= until_null(head));
                    open = false;
                },
                Some(bytes) => {
                    let text = c_string(bytes.as_slice());
                    let ghost before = arguments@;
                    arguments.push(text);
                    proof {
                        let next = all.subrange(0, i as int + 1);
                        assert(tail.drop_first() =~= all.subrange(i as int + 1, all.len() as int));
                        lemma_until_null_all_some(head);
                        assert(forall|j: int| 0 <= j <= i ==> (#[trigger] all[j]) is Some);
                        lemma_until_null_all_some(next);
                        assert(until_null(next) =~= until_null(head).push(bytes@));
                        assert(until_null(all) =~= until_null(next) + until_null(tail.drop_first()));
                        assert(texts(before).len() == i);
                        assert forall|j: int| 0 <= j < arguments@.len() implies texts(
                            arguments@,
                        )[j] == c_texts(until_null(next))[j] by {
                            if j < i {
                                assert(texts(before)[j] == c_texts(until_null(head))[j]);
                            }
                        }
                        assert(texts(arguments@) =~= c_texts(until_null(next)));
                    }
                    i = i + 1;
                },
            }
        }
        proof {
            if open {
                assert(all.subrange(0, i as int) =~= all);
            }
        }
        ExecRequest { target: TargetSpec::new(path.to_path(), search), arguments, environment }
    }
}

/// A list without a null is read whole.
pub proof fn lemma_until_null_all_some(values: Seq<Option<Seq<u8>>>)
    requires
        forall|j: int| 0 <= j < values.len() ==> (#[trigger] values[j]) is Some,
    ensures
        until_null(values) == Seq::new(values.len(), |j: int| values[j]->0),
    decreases values.len(),
{
    if values.len() > 0 {
        let rest = values.drop_first();
        assert(forall|j: int| 0 <= j < rest.len() ==> (#[trigger] rest[j]) == values[j + 1]);
        lemma_until_null_all_some(rest);
        assert(until_null(values) =~= Seq::new(values.len(), |j: int| values[j]->0));
    } else {
        assert(until_null(values) =~= Seq::new(values.len(), |j: int| values[j]->0));
    }
}

/// A variadic list that holds the strings `raws`, then a null, then anything, is
/// read as `raws`.
pub proof fn lemma_until_null_stops(raws: Seq<Seq<u8>>, rest: Seq<Option<Seq<u8>>>)
    ensures
        until_null(raws.map_values(|raw: Seq<u8>| Some(raw)) + seq![None::<Seq<u8>>] + rest) == raws,
    decreases raws.len(),
{
    let values = raws.map_values(|raw: Seq<u8>| Some(raw)) + seq![None::<Seq<u8>>] + rest;
    if raws.len() == 0 {
        assert(values[0] is None);
        assert(until_null(values) =~= raws);
    } else {
        let shorter = raws.drop_first();
        lemma_until_null_stops(shorter, rest);
        assert(values[0] == Some(raws[0]));
        assert(values.drop_first() =~= shorter.map_values(|raw: Seq<u8>| Some(raw)) + seq![
            None::<Seq<u8>>,
        ] + rest);
        assert(until_null(values) =~= raws);
    }
}

/// The two forms converge: a variadic call whose list holds the strings of an
/// argument array, followed by the terminating null, makes the request that the
/// fixed-array call makes of that array, for the same target and environment.
pub proof fn lemma_forms_converge(
    path: Seq<u8>,
    search: bool,
    array: Seq<Seq<u8>>,
    after: Seq<Option<Seq<u8>>>,
    environment: Assignments,
)
    ensures
        ingested(
            path,
            search,
            until_null(array.map_values(|raw: Seq<u8>| Some(raw)) + seq![None::<Seq<u8>>] + after),
            environment,
        ) == ingested(path, search, array, environment),
{
    lemma_until_null_stops(array, after);
}

} // verus!
