//! The decision between passing a call through and running it under an emulator.

use vstd::prelude::*;
use vstd::string::*;

use crate::arch::{tag_name, ArchitectureTag};
use crate::env::{
    keys_unique, lemma_put, lemma_without, mapping, put, without, Assignments, Environment,
};
use crate::error::ExecError;
use crate::request::{option_text, ExecRequest, RequestView};
use crate::text::texts;

verus! {

/// The environment variable through which the dynamic linker preloads the
/// interposer itself.
pub open spec fn self_injection_key() -> Seq<char> {
    "LD_PRELOAD"@
}

/// The environment variable that tells the emulator where the foreign shared
/// libraries are.
pub open spec fn loader_prefix_key() -> Seq<char> {
    "QEMU_LD_PREFIX"@
}

/// The launcher's name for an architecture: `qemu-<arch>`.
pub open spec fn launcher_name(tag: ArchitectureTag) -> Seq<char> {
    "qemu-"@ + tag_name(tag)
}

/// The name of the launcher's statically linked build: `qemu-<arch>-static`.
pub open spec fn static_launcher_name(tag: ArchitectureTag) -> Seq<char> {
    "qemu-"@ + tag_name(tag) + "-static"@
}

/// The fixed place of a launcher below `dir`: `<dir>/qemu-<arch>`.
pub open spec fn fixed_launcher_path(dir: Seq<char>, tag: ArchitectureTag) -> Seq<char> {
    dir + "/"@ + launcher_name(tag)
}

/// The library directory of an architecture below `root`: `<root>/<arch>/lib`.
pub open spec fn loader_prefix(root: Seq<char>, tag: ArchitectureTag) -> Seq<char> {
    root + "/"@ + tag_name(tag) + "/lib"@
}

/// The environment handed to the emulator: the caller's without the self-injection
/// variable, and with the loader prefix set.
pub open spec fn emulated_environment(
    environment: Assignments,
    root: Seq<char>,
    tag: ArchitectureTag,
) -> Assignments {
    put(without(environment, self_injection_key()), loader_prefix_key(), loader_prefix(root, tag))
}

/// What is handed to the genuine implementation: the file to run, its arguments and
/// its environment.
pub struct RewritePlan {
    pub real_path: String,
    pub arguments: Vec<String>,
    pub environment: Environment,
}

/// The model of a `RewritePlan`.
pub struct PlanView {
    pub real_path: Seq<char>,
    pub arguments: Seq<Seq<char>>,
    pub environment: Assignments,
}

impl View for RewritePlan {
    type V = PlanView;

    open spec fn view(&self) -> PlanView {
        PlanView {
            real_path: self.real_path@,
            arguments: texts(self.arguments@),
            environment: self.environment@,
        }
    }
}

impl RewritePlan {
    /// The invariant of the type: that of its environment.
    pub open spec fn wf(&self) -> bool {
        self.environment.wf()
    }
}

/// The plan for a request whose target resolved to `resolved` and was probed as
/// `probed`, on a host of architecture `host`, where the search for a launcher gave
/// `launcher` and the architectures' library roots lie below `root`.
///
/// A native target passes through unchanged. A foreign one runs under the launcher:
/// the resolved path goes in front of the caller's arguments, and the environment is
/// the emulated one. Without a launcher a foreign target fails.
pub open spec fn planned(
    request: RequestView,
    resolved: Seq<char>,
    probed: ArchitectureTag,
    host: ArchitectureTag,
    launcher: Option<Seq<char>>,
    root: Seq<char>,
) -> Result<PlanView, ExecError> {
    if probed == ArchitectureTag::Unsupported {
        Err(ExecError::UnsupportedArchitecture)
    } else if probed == host {
        Ok(
            PlanView {
                real_path: resolved,
                arguments: request.arguments,
                environment: request.environment,
            },
        )
    } else {
        match launcher {
            None => Err(ExecError::LauncherMissing),
            Some(path) => Ok(
                PlanView {
                    real_path: path,
                    arguments: seq![resolved] + request.arguments,
                    environment: emulated_environment(request.environment, root, probed),
                },
            ),
        }
    }
}

/// Tells whether a target probed as `probed` needs a launcher on a host of
/// architecture `host`.
pub fn needs_launcher(probed: ArchitectureTag, host: ArchitectureTag) -> (foreign: bool)
    ensures
        foreign == (probed != ArchitectureTag::Unsupported && probed != host),
{
    probed.is_supported() && probed != host
}

/// The names under which the launcher for `tag` is looked up on the search path, in
/// order of preference: `qemu-<arch>`, then `qemu-<arch>-static`.
pub fn launcher_names(tag: ArchitectureTag) -> (names: Vec<String>)
    ensures
        texts(names@) == seq![launcher_name(tag), static_launcher_name(tag)],
{
    let mut dynamic = String::from_str("qemu-");
    dynamic.append(tag.name());
    let mut static_build = dynamic.clone();
    static_build.append("-static");
    let mut names: Vec<String> = Vec::new();
    names.push(dynamic);
    names.push(static_build);
    assert(texts(names@) =~= seq![launcher_name(tag), static_launcher_name(tag)]);
    names
}

/// The fixed place of the launcher for `tag` below the directory `dir`.
pub fn fixed_launcher(dir: &str, tag: ArchitectureTag) -> (path: String)
    ensures
        path@ == fixed_launcher_path(dir@, tag),
{
    let mut path = String::from_str(dir);
    path.append("/");
    path.append("qemu-");
    path.append(tag.name());
    assert(path@ =~= fixed_launcher_path(dir@, tag));
    path
}

/// The library directory of `tag` below `root`.
pub fn library_root(root: &str, tag: ArchitectureTag) -> (path: String)
    ensures
        path@ == loader_prefix(root@, tag),
{
    let mut path = String::from_str(root);
    path.append("/");
    path.append(tag.name());
    path.append("/lib");
    path
}

/// Decides what an intercepted call runs.
///
/// `resolved` is the path the target resolved to, `probed` what the probe found in
/// that file, `host` the architecture of the running process, `launcher` the result
/// of looking for the launcher of `probed` (not read for a native target), and
/// `root` the directory below which each architecture has its libraries.
pub fn rewrite(
    request: ExecRequest,
    resolved: String,
    probed: ArchitectureTag,
    host: ArchitectureTag,
    launcher: Option<String>,
    root: &str,
) -> (plan: Result<RewritePlan, ExecError>)
    requires
        request.wf(),
    ensures
        match plan {
            Ok(p) => p.wf() && planned(request@, resolved@, probed, host, option_text(launcher), root@)
                == Ok::<PlanView, ExecError>(p@),
            Err(error) => planned(request@, resolved@, probed, host, option_text(launcher), root@)
                == Err::<PlanView, ExecError>(error),
        },
{
    if !probed.is_supported() {
        return Err(ExecError::UnsupportedArchitecture);
    }
    let ExecRequest { target: _, arguments, environment } = request;
    if probed == host {
        return Ok(RewritePlan { real_path: resolved, arguments, environment });
    }
    match launcher {
        None => Err(ExecError::LauncherMissing),
        Some(path) => {
            let mut arguments = arguments;
            let mut environment = environment;
            let ghost before = arguments@;
            arguments.insert(0, resolved);
            assert(texts(arguments@) =~= seq![resolved@] + texts(before));
            environment.remove("LD_PRELOAD");
            environment.insert(String::from_str("QEMU_LD_PREFIX"), library_root(root, probed));
            Ok(RewritePlan { real_path: path, arguments, environment })
        },
    }
}

/// A native target passes through: the plan runs the resolved path with the
/// caller's arguments and environment as they were.
pub proof fn lemma_native_identity(
    request: RequestView,
    resolved: Seq<char>,
    tag: ArchitectureTag,
    launcher: Option<Seq<char>>,
    root: Seq<char>,
)
    requires
        tag != ArchitectureTag::Unsupported,
    ensures
        planned(request, resolved, tag, tag, launcher, root) == Ok::<PlanView, ExecError>(
            PlanView {
                real_path: resolved,
                arguments: request.arguments,
                environment: request.environment,
            },
        ),
{
}

/// A foreign target with a launcher runs under it: the plan's path is the
/// launcher's, its arguments are the resolved target path followed by the caller's
/// arguments in order, its environment maps the loader prefix variable to
/// `<root>/<arch>/lib`, does not hold the self-injection variable, and holds every
/// other variable as the caller had it.
pub proof fn lemma_foreign_rewrite(
    request: RequestView,
    resolved: Seq<char>,
    probed: ArchitectureTag,
    host: ArchitectureTag,
    launcher: Seq<char>,
    root: Seq<char>,
)
    requires
        keys_unique(request.environment),
        probed != ArchitectureTag::Unsupported,
        probed != host,
    ensures
        planned(request, resolved, probed, host, Some(launcher), root) is Ok,
        ({
            let plan = planned(request, resolved, probed, host, Some(launcher), root)->Ok_0;
            &&& plan.real_path == launcher
            &&& plan.arguments.len() == request.arguments.len() + 1
            &&& plan.arguments[0] == resolved
            &&& plan.arguments.subrange(1, plan.arguments.len() as int) == request.arguments
            &&& keys_unique(plan.environment)
            &&& mapping(plan.environment) == mapping(request.environment).remove(
                self_injection_key(),
            ).insert(loader_prefix_key(), loader_prefix(root, probed))
            &&& mapping(plan.environment)[loader_prefix_key()] == loader_prefix(root, probed)
            &&& !mapping(plan.environment).dom().contains(self_injection_key())
        }),
{
    let plan = planned(request, resolved, probed, host, Some(launcher), root)->Ok_0;
    assert(plan.arguments.subrange(1, plan.arguments.len() as int) =~= request.arguments);
    let stripped = without(request.environment, self_injection_key());
    lemma_without(request.environment, self_injection_key());
    lemma_put(stripped, loader_prefix_key(), loader_prefix(root, probed));
    lemma_keys_differ();
}

/// The two variables that the rewrite touches are different ones.
pub proof fn lemma_keys_differ()
    ensures
        self_injection_key() != loader_prefix_key(),
{
    reveal_strlit("LD_PRELOAD");
    reveal_strlit("QEMU_LD_PREFIX");
    assert(self_injection_key().len() == 10);
    assert(loader_prefix_key().len() == 14);
}

/// The decision is a function of its inputs: two plans made for the same request,
/// resolved path, architectures, launcher and root are the same plan.
pub proof fn lemma_rewrite_deterministic(
    request: RequestView,
    resolved: Seq<char>,
    probed: ArchitectureTag,
    host: ArchitectureTag,
    launcher: Option<Seq<char>>,
    root: Seq<char>,
    first: Result<PlanView, ExecError>,
    second: Result<PlanView, ExecError>,
)
    requires
        first == planned(request, resolved, probed, host, launcher, root),
        second == planned(request, resolved, probed, host, launcher, root),
    ensures
        first == second,
{
}

} // verus!
