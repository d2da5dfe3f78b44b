//! Sidecar location: which command launches the sidecar.
//!
//! Resolution has two phases, and the first match wins. A packaged binary
//! beside the running executable is preferred, under its platform-qualified
//! name before its generic name. A platform for which no sidecar is packaged
//! has no qualified name, so nothing on disk can match it. Failing that, a development script is looked
//! for in the working directory and its nearest ancestors. The caller probes
//! the file system and reports, for each candidate, its path and whether it
//! exists; the functions here name the candidates and decide among them.

use vstd::prelude::*;
use vstd::string::*;
use crate::decimal::{decimal, decimal_string};
use crate::platform::{current_target_triple, same_text, target_triple};

verus! {

/// How many directories the development search visits, the starting
/// directory included.
pub const MAX_SEARCH_DEPTH: usize = 6;

/// A candidate file: its path, and whether it was found on disk.
#[derive(Clone, Debug, PartialEq, Eq)]
pub struct PathProbe {
    pub path: String,
    pub exists: bool,
}

/// The two packaged candidates in the directory of the running executable.
#[derive(Clone, Debug, PartialEq, Eq)]
pub struct PackagedProbes {
    /// The binary under its platform-qualified name; absent on a platform
    /// that has no such name.
    pub qualified: Option<PathProbe>,
    /// The binary under its generic name.
    pub generic: PathProbe,
}

/// An environment variable set for the child.
#[derive(Clone, Debug, PartialEq, Eq)]
pub struct EnvVar {
    pub name: String,
    pub value: String,
}

/// What is executed to start the sidecar.
#[derive(Clone, Debug, PartialEq, Eq)]
pub struct LaunchCommand {
    /// The executable, or the interpreter of a script.
    pub program: String,
    pub args: Vec<String>,
    /// The overrides applied on top of the parent's environment, in order.
    pub env: Vec<EnvVar>,
}

/// An environment variable as text.
pub struct EnvVarView {
    pub name: Seq<char>,
    pub value: Seq<char>,
}

/// A launch command as text.
pub struct LaunchCommandView {
    pub program: Seq<char>,
    pub args: Seq<Seq<char>>,
    pub env: Seq<EnvVarView>,
}

impl DeepView for EnvVar {
    type V = EnvVarView;

    open spec fn deep_view(&self) -> EnvVarView {
        EnvVarView { name: self.name@, value: self.value@ }
    }
}

impl View for LaunchCommand {
    type V = LaunchCommandView;

    open spec fn view(&self) -> LaunchCommandView {
        LaunchCommandView {
            program: self.program@,
            args: self.args.deep_view(),
            env: self.env.deep_view(),
        }
    }
}

impl DeepView for LaunchCommand {
    type V = LaunchCommandView;

    open spec fn deep_view(&self) -> LaunchCommandView {
        self@
    }
}

/// The file name of the packaged binary built for a target triple.
pub open spec fn qualified_name(triple: Seq<char>) -> Seq<char> {
    "patze-api-"@ + triple
}

/// The file name under which the packaged binary of a platform is looked for
/// first. A platform whose target triple is unknown has none.
pub open spec fn qualified_candidate(os: Seq<char>, arch: Seq<char>) -> Option<Seq<char>> {
    if target_triple(os, arch) == "unknown"@ {
        None
    } else {
        Some(qualified_name(target_triple(os, arch)))
    }
}

/// Whether the qualified candidate was probed and found.
pub open spec fn qualified_found(probes: PackagedProbes) -> bool {
    probes.qualified matches Some(q) && q.exists
}

/// The packaged binary that resolution settles on: the qualified candidate
/// if there is one and it exists, else the generic one if that exists.
pub open spec fn packaged_binary(probes: Option<PackagedProbes>) -> Option<Seq<char>> {
    match probes {
        Some(p) => if qualified_found(p) {
            Some(p.qualified->0.path@)
        } else if p.generic.exists {
            Some(p.generic.path@)
        } else {
            None
        },
        None => None,
    }
}

/// The script found by walking `ancestors` upwards from index `from`, never
/// past the search depth.
pub open spec fn script_from(ancestors: Seq<PathProbe>, from: int) -> Option<Seq<char>>
    decreases MAX_SEARCH_DEPTH - from,
{
    if from < 0 || from >= ancestors.len() || from >= MAX_SEARCH_DEPTH {
        None
    } else if ancestors[from].exists {
        Some(ancestors[from].path@)
    } else {
        script_from(ancestors, from + 1)
    }
}

/// The development script that resolution settles on: that of the nearest
/// directory, among the first `MAX_SEARCH_DEPTH`, in which it exists.
pub open spec fn dev_script(ancestors: Seq<PathProbe>) -> Option<Seq<char>> {
    script_from(ancestors, 0)
}

/// The environment handed to the sidecar: the port in decimal, and the
/// loopback address as host.
pub open spec fn sidecar_env(port: u16) -> Seq<EnvVarView> {
    seq![
        EnvVarView { name: "PORT"@, value: decimal(port as nat) },
        EnvVarView { name: "HOST"@, value: "127.0.0.1"@ },
    ]
}

/// The command that runs a packaged binary.
pub open spec fn binary_command(path: Seq<char>, port: u16) -> LaunchCommandView {
    LaunchCommandView { program: path, args: Seq::empty(), env: sidecar_env(port) }
}

/// The command that runs the development script through its interpreter.
pub open spec fn script_command(script: Seq<char>, port: u16) -> LaunchCommandView {
    LaunchCommandView { program: "tsx"@, args: seq![script], env: sidecar_env(port) }
}

/// The command that resolution settles on: packaged mode first, development
/// mode second, else none.
pub open spec fn launch_command(
    port: u16,
    probes: Option<PackagedProbes>,
    ancestors: Seq<PathProbe>,
) -> Option<LaunchCommandView> {
    match packaged_binary(probes) {
        Some(path) => Some(binary_command(path, port)),
        None => match dev_script(ancestors) {
            Some(script) => Some(script_command(script, port)),
            None => None,
        },
    }
}

/// The file name of the packaged binary for the given platform, or `None`
/// for a platform for which no sidecar is packaged: such a platform has no
/// qualified candidate to probe.
///
/// `os` and `arch` are the names by which the compiler knows the host's
/// operating system and processor architecture.
pub fn qualified_binary_name(os: &str, arch: &str) -> (name: Option<String>)
    ensures
        name.deep_view() == qualified_candidate(os@, arch@),
{
    let triple: &'static str = current_target_triple(os, arch);
    if same_text(triple, "unknown") {
        None
    } else {
        let mut name: String = String::from_str("patze-api-");
        name.append(triple);
        Some(name)
    }
}

/// The file name under which the packaged binary is looked for when no
/// platform-qualified one exists.
pub fn generic_binary_name() -> (name: &'static str)
    ensures
        name@ == "patze-api"@,
{
    "patze-api"
}

/// The path of the development script, relative to a project root.
pub fn dev_script_path() -> (path: &'static str)
    ensures
        path@ == "apps/api-server/src/index.ts"@,
{
    "apps/api-server/src/index.ts"
}

/// Picks the packaged binary.
///
/// `probes` is `None` where the directory of the running executable could
/// not be determined.
pub fn resolve_sidecar_path(probes: &Option<PackagedProbes>) -> (path: Option<String>)
    ensures
        path.deep_view() == packaged_binary(*probes),
{
    match probes {
        Some(p) => {
            match &p.qualified {
                Some(q) => {
                    if q.exists {
                        return Some(q.path.clone());
                    }
                },
                None => {},
            }
            if p.generic.exists {
                Some(p.generic.path.clone())
            } else {
                None
            }
        },
        None => None,
    }
}

/// Searches the working directory and its ancestors for the development
/// script.
///
/// `ancestors` holds one probe per directory, starting with the working
/// directory and going up; it ends where the root of the file system is
/// reached, and is empty where the working directory is unknown. Only the
/// first `MAX_SEARCH_DEPTH` entries are looked at. The result is the
/// interpreter and its arguments: the script's path alone.
pub fn resolve_dev_sidecar(ancestors: &Vec<PathProbe>) -> (found: Option<(String, Vec<String>)>)
    ensures
        found.deep_view() == match dev_script(ancestors@) {
            Some(script) => Some(("tsx"@, seq![script])),
            None => None,
        },
{
    let mut i: usize = 0;
    while i < ancestors.len() && i < MAX_SEARCH_DEPTH
        invariant
            i <= ancestors.len(),
            i <= MAX_SEARCH_DEPTH,
            dev_script(ancestors@) == script_from(ancestors@, i as int),
        decreases ancestors.len() - i,
    {
        if ancestors[i].exists {
            let mut args: Vec<String> = Vec::new();
            args.push(ancestors[i].path.clone());
            assert(args.deep_view() =~= seq![ancestors[i as int].path@]);
            return Some((String::from_str("tsx"), args));
        }
        i = i + 1;
    }
    None
}

/// Builds the environment overrides for the sidecar.
fn build_env(port: u16) -> (env: Vec<EnvVar>)
    ensures
        env.deep_view() == sidecar_env(port),
{
    let mut env: Vec<EnvVar> = Vec::new();
    env.push(EnvVar { name: String::from_str("PORT"), value: decimal_string(port) });
    env.push(EnvVar { name: String::from_str("HOST"), value: String::from_str("127.0.0.1") });
    assert(env.deep_view() =~= sidecar_env(port));
    env
}

/// Resolves the command that launches the sidecar on `port`.
///
/// Returns `None` where neither phase finds a target: no sidecar is
/// available, and the caller goes on without one.
pub fn resolve_launch_command(
    port: u16,
    probes: &Option<PackagedProbes>,
    ancestors: &Vec<PathProbe>,
) -> (command: Option<LaunchCommand>)
    ensures
        command.deep_view() == launch_command(port, *probes, ancestors@),
{
    match resolve_sidecar_path(probes) {
        Some(path) => {
            let command = LaunchCommand { program: path, args: Vec::new(), env: build_env(port) };
            assert(command@.args =~= Seq::empty());
            Some(command)
        },
        None => match resolve_dev_sidecar(ancestors) {
            Some((program, args)) => {
                let command = LaunchCommand { program, args, env: build_env(port) };
                Some(command)
            },
            None => None,
        },
    }
}

/// Whether `i` is the nearest directory, within the search depth, whose
/// script exists.
pub open spec fn is_nearest_script(ancestors: Seq<PathProbe>, i: int) -> bool {
    &&& 0 <= i < ancestors.len()
    &&& i < MAX_SEARCH_DEPTH
    &&& ancestors[i].exists
    &&& forall|j: int| 0 <= j < i ==> !(#[trigger] ancestors[j]).exists
}

/// Whether no directory within the search depth holds the script.
pub open spec fn no_script_in_reach(ancestors: Seq<PathProbe>) -> bool {
    forall|j: int|
        0 <= j < ancestors.len() && j < MAX_SEARCH_DEPTH ==> !(#[trigger] ancestors[j]).exists
}

proof fn lemma_script_from(ancestors: Seq<PathProbe>, from: int)
    requires
        0 <= from,
        forall|j: int| 0 <= j < from && j < ancestors.len() ==> !(#[trigger] ancestors[j]).exists,
    ensures
        match script_from(ancestors, from) {
            Some(script) => exists|i: int|
                is_nearest_script(ancestors, i) && script == ancestors[i].path@,
            None => no_script_in_reach(ancestors),
        },
    decreases MAX_SEARCH_DEPTH - from,
{
    if from >= ancestors.len() || from >= MAX_SEARCH_DEPTH {
    } else if ancestors[from].exists {
        assert(is_nearest_script(ancestors, from));
    } else {
        lemma_script_from(ancestors, from + 1);
    }
}

/// The development search finds the script of the nearest directory that has
/// one, and it finds nothing exactly when none of the first
/// `MAX_SEARCH_DEPTH` directories has one: what lies further up is never
/// consulted.
pub proof fn lemma_dev_search_is_bounded(ancestors: Seq<PathProbe>)
    ensures
        no_script_in_reach(ancestors) <==> dev_script(ancestors) is None,
        forall|i: int|
            is_nearest_script(ancestors, i) ==> dev_script(ancestors) == Some(
                ancestors[i].path@,
            ),
{
    lemma_script_from(ancestors, 0);
    assert forall|i: int| is_nearest_script(ancestors, i) implies dev_script(ancestors) == Some(
        ancestors[i].path@,
    ) by {
        let k = choose|k: int|
            is_nearest_script(ancestors, k) && dev_script(ancestors) == Some(ancestors[k].path@);
        assert(k == i);
    }
}

/// A packaged binary under its platform-qualified name is launched whenever
/// it exists, whatever else exists beside it: the generic binary and the
/// development script are passed over.
pub proof fn lemma_qualified_binary_preferred(
    port: u16,
    probes: PackagedProbes,
    ancestors: Seq<PathProbe>,
)
    requires
        qualified_found(probes),
    ensures
        launch_command(port, Some(probes), ancestors) == Some(
            binary_command(probes.qualified->0.path@, port),
        ),
{
}

/// Whether `probes` are those of a platform: the qualified candidate was
/// probed exactly where the platform has one.
pub open spec fn probed_for(probes: PackagedProbes, os: Seq<char>, arch: Seq<char>) -> bool {
    probes.qualified is Some <==> qualified_candidate(os, arch) is Some
}

/// On a platform for which no sidecar is packaged, resolution never settles
/// on a qualified binary: there is no name to probe, so the packaged phase
/// finds the generic binary or nothing, whatever lies on disk.
pub proof fn lemma_unknown_platform_matches_no_qualified_binary(
    os: Seq<char>,
    arch: Seq<char>,
    probes: PackagedProbes,
)
    requires
        target_triple(os, arch) == "unknown"@,
        probed_for(probes, os, arch),
    ensures
        qualified_candidate(os, arch) is None,
        !qualified_found(probes),
        packaged_binary(Some(probes)) == if probes.generic.exists {
            Some(probes.generic.path@)
        } else {
            None
        },
{
}

/// A packaged binary under its generic name is launched where the qualified
/// one is missing, whether or not a development script exists.
pub proof fn lemma_generic_binary_before_script(
    port: u16,
    probes: PackagedProbes,
    ancestors: Seq<PathProbe>,
)
    requires
        !qualified_found(probes),
        probes.generic.exists,
    ensures
        launch_command(port, Some(probes), ancestors) == Some(
            binary_command(probes.generic.path@, port),
        ),
{
}

/// Without a packaged binary and without a script within the search depth,
/// nothing is resolved.
pub proof fn lemma_nothing_found(
    port: u16,
    probes: Option<PackagedProbes>,
    ancestors: Seq<PathProbe>,
)
    requires
        packaged_binary(probes) is None,
        no_script_in_reach(ancestors),
    ensures
        launch_command(port, probes, ancestors) is None,
{
    lemma_dev_search_is_bounded(ancestors);
}

} // verus!
