//! One intercepted call as a sequence of decisions.
//!
//! The interception itself touches nothing outside: it names the next thing to be
//! done as an [`Action`], and is told what came of it as an [`Event`].

use vstd::prelude::*;

use crate::arch::ArchitectureTag;
use crate::args::Args;
use crate::env::{collapse, Env};
use crate::error::{ErrorCode, ExecError};
use crate::path::Path;
use crate::probe::{has_elf_magic, probe, probed};
use crate::request::{
    ingested, lemma_forms_converge, option_text, raw_values, resolution, until_null, ExecRequest,
    RequestView, TargetSpec, TargetView,
};
use crate::rewrite::{
    fixed_launcher, fixed_launcher_path, launcher_name, launcher_names, needs_launcher, planned,
    rewrite, static_launcher_name, PlanView, RewritePlan,
};
use crate::text::texts;
use crate::trampoline::{image_of, plan_crossable, serialize, CallImage, ImageView};

verus! {

/// What an interception is configured with.
pub struct Settings {
    /// The architecture of the running process.
    pub host: ArchitectureTag,
    /// The directory in which launchers have their fixed place.
    pub launcher_dir: String,
    /// The directory below which each architecture has its libraries.
    pub arch_root: String,
}

/// The model of `Settings`.
pub struct SettingsView {
    pub host: ArchitectureTag,
    pub launcher_dir: Seq<char>,
    pub arch_root: Seq<char>,
}

impl View for Settings {
    type V = SettingsView;

    open spec fn view(&self) -> SettingsView {
        SettingsView {
            host: self.host,
            launcher_dir: self.launcher_dir@,
            arch_root: self.arch_root@,
        }
    }
}

/// How an intercepted call ends when it returns at all.
#[derive(Clone, Copy, Debug, PartialEq, Eq, Structural)]
pub enum Outcome {
    /// The call failed before the genuine implementation ran.
    Failed(ExecError),
    /// The genuine implementation ran and returned this code.
    Returned(i32),
}

impl Outcome {
    /// The code handed back to the caller: the genuine implementation's own,
    /// unchanged, or the number of the failure's standard error.
    pub fn code(&self) -> (code: i32)
        ensures
            match *self {
                Outcome::Returned(returned) => code == returned,
                Outcome::Failed(_) => code != 0,
            },
    {
        match self {
            Outcome::Returned(returned) => *returned,
            Outcome::Failed(error) => error.code().errno(),
        }
    }

    /// The standard error that a failure is reported as; `None` where the genuine
    /// implementation ran.
    pub fn error_code(&self) -> (code: Option<ErrorCode>)
        ensures
            match *self {
                Outcome::Returned(_) => code is None,
                Outcome::Failed(error) => code == Some(crate::error::error_code(error)),
            },
    {
        match self {
            Outcome::Returned(_) => None,
            Outcome::Failed(error) => Some(error.code()),
        }
    }
}

/// What is to be done next for an intercepted call.
pub enum Action {
    /// Look this bare name up on the search path; answer with `Event::Found`.
    ResolveName(String),
    /// Read the first `HEADER_LEN` bytes of this file; answer with `Event::Header`.
    ReadHeader(String),
    /// Look for a launcher, under these names on the search path, else at the fixed
    /// place; answer with `Event::Found`.
    FindLauncher(Vec<String>, String),
    /// Call the genuine implementation with these buffers; if it returns, answer
    /// with `Event::Returned`.
    Invoke(CallImage),
    /// Return to the caller. Nothing follows.
    Finish(Outcome),
}

/// The model of an `Action`.
pub enum ActionView {
    ResolveName(Seq<char>),
    ReadHeader(Seq<char>),
    FindLauncher(Seq<Seq<char>>, Seq<char>),
    Invoke(ImageView),
    Finish(Outcome),
}

impl View for Action {
    type V = ActionView;

    open spec fn view(&self) -> ActionView {
        match self {
            Action::ResolveName(name) => ActionView::ResolveName(name@),
            Action::ReadHeader(path) => ActionView::ReadHeader(path@),
            Action::FindLauncher(names, fixed) => ActionView::FindLauncher(texts(names@), fixed@),
            Action::Invoke(image) => ActionView::Invoke(image@),
            Action::Finish(outcome) => ActionView::Finish(*outcome),
        }
    }
}

/// What came of an action.
pub enum Event {
    /// A lookup ended: the path found, or `None`.
    Found(Option<String>),
    /// A file was read: its leading bytes, or `None` where it could not be opened or
    /// read.
    Header(Option<Vec<u8>>),
    /// The genuine implementation returned this code, or could not be found (`None`).
    Returned(Option<i32>),
}

/// The model of an `Event`.
pub enum EventView {
    Found(Option<Seq<char>>),
    Header(Option<Seq<u8>>),
    Returned(Option<i32>),
}

impl View for Event {
    type V = EventView;

    open spec fn view(&self) -> EventView {
        match self {
            Event::Found(found) => EventView::Found(option_text(*found)),
            Event::Header(header) => EventView::Header(
                match header {
                    Some(bytes) => Some(bytes@),
                    None => None,
                },
            ),
            Event::Returned(code) => EventView::Returned(*code),
        }
    }
}

/// How far an interception has come.
pub enum Stage {
    /// The bare name of the target is being looked up.
    Resolving(ExecRequest),
    /// The file at the resolved path is being read.
    Probing(ExecRequest, String),
    /// The launcher for a foreign target is being looked for.
    Locating(ExecRequest, String, ArchitectureTag),
    /// The genuine implementation is being called.
    Invoking,
    /// The call has ended.
    Done,
}

/// The model of a `Stage`.
pub enum StageView {
    Resolving(RequestView),
    Probing(RequestView, Seq<char>),
    Locating(RequestView, Seq<char>, ArchitectureTag),
    Invoking,
    Done,
}

impl View for Stage {
    type V = StageView;

    open spec fn view(&self) -> StageView {
        match self {
            Stage::Resolving(request) => StageView::Resolving(request@),
            Stage::Probing(request, resolved) => StageView::Probing(request@, resolved@),
            Stage::Locating(request, resolved, tag) => StageView::Locating(request@, resolved@, *tag),
            Stage::Invoking => StageView::Invoking,
            Stage::Done => StageView::Done,
        }
    }
}

impl Stage {
    /// The invariant of the type: that of the request it holds.
    pub open spec fn wf(&self) -> bool {
        match self {
            Stage::Resolving(request) => request.wf(),
            Stage::Probing(request, _) => request.wf(),
            Stage::Locating(request, _, _) => request.wf(),
            Stage::Invoking => true,
            Stage::Done => true,
        }
    }
}

/// The end of a call that failed with `error`.
pub open spec fn failed(error: ExecError) -> (StageView, ActionView) {
    (StageView::Done, ActionView::Finish(Outcome::Failed(error)))
}

/// The first step: a bare name is looked up, a path is read at once.
pub open spec fn first_step(request: RequestView) -> (StageView, ActionView) {
    match request.target {
        TargetView::Name(name) => (StageView::Resolving(request), ActionView::ResolveName(name)),
        TargetView::Path(path) => (StageView::Probing(request, path), ActionView::ReadHeader(path)),
    }
}

/// The step that follows the decision of the rewrite engine: a plan is serialized
/// and handed to the genuine implementation, a failure ends the call.
pub open spec fn launch_step(plan: Result<PlanView, ExecError>) -> (StageView, ActionView) {
    match plan {
        Err(error) => failed(error),
        Ok(p) => if plan_crossable(p) {
            (StageView::Invoking, ActionView::Invoke(image_of(p)))
        } else {
            failed(ExecError::EmbeddedNul)
        },
    }
}

/// The step that follows the reading of the target's file: a failed probe ends the
/// call, a native target is launched as it is, for a foreign one the launcher is
/// looked for.
pub open spec fn probe_step(
    settings: SettingsView,
    request: RequestView,
    resolved: Seq<char>,
    header: Option<Seq<u8>>,
) -> (StageView, ActionView) {
    match header {
        None => failed(ExecError::Access),
        Some(bytes) => match probed(bytes) {
            Err(error) => failed(error),
            Ok(tag) => if tag == settings.host {
                launch_step(planned(request, resolved, tag, settings.host, None, settings.arch_root))
            } else {
                (
                    StageView::Locating(request, resolved, tag),
                    ActionView::FindLauncher(
                        seq![launcher_name(tag), static_launcher_name(tag)],
                        fixed_launcher_path(settings.launcher_dir, tag),
                    ),
                )
            },
        },
    }
}

/// The step that an event causes in a stage. An event that does not answer the
/// stage's action ends the call with `UnexpectedAnswer`.
pub open spec fn step(settings: SettingsView, stage: StageView, event: EventView) -> (
    StageView,
    ActionView,
) {
    match stage {
        StageView::Resolving(request) => match event {
            EventView::Found(found) => match resolution(request.target, found) {
                Ok(path) => (StageView::Probing(request, path), ActionView::ReadHeader(path)),
                Err(error) => failed(error),
            },
            _ => failed(ExecError::UnexpectedAnswer),
        },
        StageView::Probing(request, resolved) => match event {
            EventView::Header(header) => probe_step(settings, request, resolved, header),
            _ => failed(ExecError::UnexpectedAnswer),
        },
        StageView::Locating(request, resolved, tag) => match event {
            EventView::Found(launcher) => launch_step(
                planned(request, resolved, tag, settings.host, launcher, settings.arch_root),
            ),
            _ => failed(ExecError::UnexpectedAnswer),
        },
        StageView::Invoking => match event {
            EventView::Returned(Some(code)) => (
                StageView::Done,
                ActionView::Finish(Outcome::Returned(code)),
            ),
            EventView::Returned(None) => failed(ExecError::SymbolMissing),
            _ => failed(ExecError::UnexpectedAnswer),
        },
        StageView::Done => failed(ExecError::UnexpectedAnswer),
    }
}

/// One intercepted call on its way.
pub struct Interception {
    pub settings: Settings,
    pub stage: Stage,
}

fn fail(error: ExecError) -> (next: (Stage, Action))
    ensures
        (next.0@, next.1@) == failed(error),
        next.0.wf(),
{
    (Stage::Done, Action::Finish(Outcome::Failed(error)))
}

fn launch(plan: Result<RewritePlan, ExecError>) -> (next: (Stage, Action))
    ensures
        (next.0@, next.1@) == launch_step(
            match plan {
                Ok(p) => Ok(p@),
                Err(error) => Err(error),
            },
        ),
        next.0.wf(),
{
    match plan {
        Err(error) => fail(error),
        Ok(p) => match serialize(&p) {
            Ok(image) => (Stage::Invoking, Action::Invoke(image)),
            Err(_) => fail(ExecError::EmbeddedNul),
        },
    }
}

impl Interception {
    /// The invariant of the type: that of its stage.
    pub open spec fn wf(&self) -> bool {
        self.stage.wf()
    }

    /// Begins the interception of a call.
    pub fn begin(request: ExecRequest, settings: Settings) -> (started: (Interception, Action))
        requires
            request.wf(),
        ensures
            started.0.wf(),
            started.0.settings@ == settings@,
            (started.0.stage@, started.1@) == first_step(request@),
    {
        match &request.target {
            TargetSpec::Name(name) => {
                let name = name.clone();
                (Interception { settings, stage: Stage::Resolving(request) }, Action::ResolveName(name))
            },
            TargetSpec::Path(path) => {
                let resolved = path.clone();
                let path = path.clone();
                (
                    Interception { settings, stage: Stage::Probing(request, resolved) },
                    Action::ReadHeader(path),
                )
            },
        }
    }

    /// Tells whether the call has ended.
    pub fn is_done(&self) -> (done: bool)
        ensures
            done == (self.stage@ == StageView::Done),
    {
        match &self.stage {
            Stage::Done => true,
            _ => false,
        }
    }

    /// Takes the answer to the last action and names the next one.
    pub fn advance(self, event: Event) -> (next: (Interception, Action))
        requires
            self.wf(),
        ensures
            next.0.wf(),
            next.0.settings@ == self.settings@,
            (next.0.stage@, next.1@) == step(self.settings@, self.stage@, event@),
    {
        let Interception { settings, stage } = self;
        let (stage, action) = match stage {
            Stage::Resolving(request) => match event {
                Event::Found(found) => match request.target.resolve(found) {
                    Ok(path) => {
                        let resolved = path.clone();
                        (Stage::Probing(request, resolved), Action::ReadHeader(path))
                    },
                    Err(error) => fail(error),
                },
                _ => fail(ExecError::UnexpectedAnswer),
            },
            Stage::Probing(request, resolved) => match event {
                Event::Header(header) => {
                    let tag = match &header {
                        Some(bytes) => probe(Some(bytes.as_slice())),
                        None => probe(None),
                    };
                    match tag {
                        Err(error) => fail(error),
                        Ok(tag) => if needs_launcher(tag, settings.host) {
                            let names = launcher_names(tag);
                            let fixed = fixed_launcher(settings.launcher_dir.as_str(), tag);
                            (Stage::Locating(request, resolved, tag), Action::FindLauncher(names, fixed))
                        } else {
                            launch(
                                rewrite(
                                    request,
                                    resolved,
                                    tag,
                                    settings.host,
                                    None,
                                    settings.arch_root.as_str(),
                                ),
                            )
                        },
                    }
                },
                _ => fail(ExecError::UnexpectedAnswer),
            },
            Stage::Locating(request, resolved, tag) => match event {
                Event::Found(launcher) => launch(
                    rewrite(
                        request,
                        resolved,
                        tag,
                        settings.host,
                        launcher,
                        settings.arch_root.as_str(),
                    ),
                ),
                _ => fail(ExecError::UnexpectedAnswer),
            },
            Stage::Invoking => match event {
                Event::Returned(Some(code)) => (Stage::Done, Action::Finish(Outcome::Returned(code))),
                Event::Returned(None) => fail(ExecError::SymbolMissing),
                _ => fail(ExecError::UnexpectedAnswer),
            },
            Stage::Done => fail(ExecError::UnexpectedAnswer),
        };
        (Interception { settings, stage }, action)
    }
}

/// Begins the interception of an `execve` call: a target path that is used as it
/// stands, an argument array and an environment array.
pub fn execve(path: &Path, argv: &Args, envp: &Env, settings: Settings) -> (started: (
    Interception,
    Action,
))
    ensures
        started.0.wf(),
        started.0.settings@ == settings@,
        (started.0.stage@, started.1@) == first_step(
            ingested(path@, false, argv@, collapse(envp@)),
        ),
{
    Interception::begin(ExecRequest::from_array(path, false, argv, envp.to_map()), settings)
}

/// Begins the interception of an `execv` call: a target path and an argument
/// array; `inherited` is the environment of the calling process at the time of the
/// call.
pub fn execv(path: &Path, argv: &Args, inherited: &Env, settings: Settings) -> (started: (
    Interception,
    Action,
))
    ensures
        started.0.wf(),
        started.0.settings@ == settings@,
        (started.0.stage@, started.1@) == first_step(
            ingested(path@, false, argv@, collapse(inherited@)),
        ),
{
    Interception::begin(ExecRequest::from_array(path, false, argv, inherited.to_map()), settings)
}

/// Begins the interception of an `execvp` call: a target that is looked up on the
/// search path where it is a bare name, and an argument array; `inherited` is the
/// environment of the calling process at the time of the call.
pub fn execvp(file: &Path, argv: &Args, inherited: &Env, settings: Settings) -> (started: (
    Interception,
    Action,
))
    ensures
        started.0.wf(),
        started.0.settings@ == settings@,
        (started.0.stage@, started.1@) == first_step(
            ingested(file@, true, argv@, collapse(inherited@)),
        ),
{
    Interception::begin(ExecRequest::from_array(file, true, argv, inherited.to_map()), settings)
}

/// Begins the interception of an `execvpe` call: a target that is looked up on the
/// search path where it is a bare name, an argument array and an environment array.
pub fn execvpe(file: &Path, argv: &Args, envp: &Env, settings: Settings) -> (started: (
    Interception,
    Action,
))
    ensures
        started.0.wf(),
        started.0.settings@ == settings@,
        (started.0.stage@, started.1@) == first_step(
            ingested(file@, true, argv@, collapse(envp@)),
        ),
{
    Interception::begin(ExecRequest::from_array(file, true, argv, envp.to_map()), settings)
}

/// Begins the interception of an `execl` call: a target path and the values of the
/// variadic argument list, read up to the first null; `inherited` is the
/// environment of the calling process at the time of the call.
pub fn execl(path: &Path, values: &Vec<Option<Vec<u8>>>, inherited: &Env, settings: Settings) -> (started: (
    Interception,
    Action,
))
    ensures
        started.0.wf(),
        started.0.settings@ == settings@,
        (started.0.stage@, started.1@) == first_step(
            ingested(path@, false, until_null(raw_values(values@)), collapse(inherited@)),
        ),
{
    Interception::begin(ExecRequest::from_list(path, false, values, inherited.to_map()), settings)
}

/// Begins the interception of an `execlp` call: a target that is looked up on the
/// search path where it is a bare name, and the values of the variadic argument
/// list, read up to the first null; `inherited` is the environment of the calling
/// process at the time of the call.
pub fn execlp(file: &Path, values: &Vec<Option<Vec<u8>>>, inherited: &Env, settings: Settings) -> (started: (
    Interception,
    Action,
))
    ensures
        started.0.wf(),
        started.0.settings@ == settings@,
        (started.0.stage@, started.1@) == first_step(
            ingested(file@, true, until_null(raw_values(values@)), collapse(inherited@)),
        ),
{
    Interception::begin(ExecRequest::from_list(file, true, values, inherited.to_map()), settings)
}

/// Begins the interception of an `execle` call: a target path, the values of the
/// variadic argument list, read up to the first null, and the environment array
/// that follows the null.
pub fn execle(path: &Path, values: &Vec<Option<Vec<u8>>>, envp: &Env, settings: Settings) -> (started: (
    Interception,
    Action,
))
    ensures
        started.0.wf(),
        started.0.settings@ == settings@,
        (started.0.stage@, started.1@) == first_step(
            ingested(path@, false, until_null(raw_values(values@)), collapse(envp@)),
        ),
{
    Interception::begin(ExecRequest::from_list(path, false, values, envp.to_map()), settings)
}

/// The list and the array forms of a call begin alike: `execl` on a list that holds
/// the strings of an argument array and then the terminating null begins as `execv`
/// does on that array, for the same path and environment.
pub proof fn lemma_list_call_begins_as_array_call(
    path: Seq<u8>,
    array: Seq<Seq<u8>>,
    after: Seq<Option<Seq<u8>>>,
    inherited: Seq<Seq<u8>>,
)
    ensures
        first_step(
            ingested(
                path,
                false,
                until_null(array.map_values(|raw: Seq<u8>| Some(raw)) + seq![None::<Seq<u8>>] + after),
                collapse(inherited),
            ),
        ) == first_step(ingested(path, false, array, collapse(inherited))),
{
    lemma_forms_converge(path, false, array, after, collapse(inherited));
}

/// A target that cannot be opened or read ends the call as an access failure,
/// reported as "permission denied"; the genuine implementation is not called.
pub proof fn lemma_unreadable_target(settings: SettingsView, request: RequestView, resolved: Seq<char>)
    ensures
        step(settings, StageView::Probing(request, resolved), EventView::Header(None)) == failed(
            ExecError::Access,
        ),
        crate::error::error_code(ExecError::Access) == ErrorCode::PermissionDenied,
{
}

/// A target whose file does not begin with the ELF magic ends the call as a format
/// failure, reported as "exec format error"; the genuine implementation is not
/// called.
pub proof fn lemma_not_an_executable(
    settings: SettingsView,
    request: RequestView,
    resolved: Seq<char>,
    bytes: Seq<u8>,
)
    requires
        !has_elf_magic(bytes),
    ensures
        step(settings, StageView::Probing(request, resolved), EventView::Header(Some(bytes)))
            == failed(ExecError::Format),
        crate::error::error_code(ExecError::Format) == ErrorCode::ExecFormat,
{
}

/// A foreign target without a launcher ends the call as a resolution failure,
/// reported as "exec format error"; nothing is handed to the genuine
/// implementation.
pub proof fn lemma_missing_launcher(
    settings: SettingsView,
    request: RequestView,
    resolved: Seq<char>,
    tag: ArchitectureTag,
)
    requires
        tag != ArchitectureTag::Unsupported,
        tag != settings.host,
    ensures
        step(settings, StageView::Locating(request, resolved, tag), EventView::Found(None))
            == failed(ExecError::LauncherMissing),
        crate::error::error_code(ExecError::LauncherMissing) == ErrorCode::ExecFormat,
{
}

/// A native target is handed to the genuine implementation as the caller gave it:
/// the resolved path, the caller's arguments and the caller's environment,
/// serialized.
pub proof fn lemma_native_pass_through(
    settings: SettingsView,
    request: RequestView,
    resolved: Seq<char>,
    bytes: Seq<u8>,
)
    requires
        probed(bytes) == Ok::<ArchitectureTag, ExecError>(settings.host),
        plan_crossable(
            PlanView {
                real_path: resolved,
                arguments: request.arguments,
                environment: request.environment,
            },
        ),
    ensures
        step(settings, StageView::Probing(request, resolved), EventView::Header(Some(bytes))) == (
            StageView::Invoking,
            ActionView::Invoke(
                image_of(
                    PlanView {
                        real_path: resolved,
                        arguments: request.arguments,
                        environment: request.environment,
                    },
                ),
            ),
        ),
{
}

/// What the genuine implementation returns is what the caller gets.
pub proof fn lemma_return_passes_through(settings: SettingsView, code: i32)
    ensures
        step(settings, StageView::Invoking, EventView::Returned(Some(code))) == (
            StageView::Done,
            ActionView::Finish(Outcome::Returned(code)),
        ),
{
}

} // verus!
