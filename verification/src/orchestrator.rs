//! Planning the call of the toolchain, and judging how it ended.
//!
//! Nothing here starts a process. A [`ToolchainInvocation`] says which
//! program to run, where, with which variables and arguments; whoever runs
//! it reports a [`ToolchainOutcome`], which [`judge_outcome`] turns into
//! success or a failure that ends the build.

use crate::target::{BuildTarget, BuildTargetView, ConfigError, LinkMode};
use vstd::prelude::*;
use vstd::string::*;

verus! {

/// One variable set for the toolchain.
#[derive(Clone, Debug, PartialEq, Eq)]
pub struct EnvVar {
    pub key: String,
    pub value: String,
}

impl View for EnvVar {
    type V = (Seq<char>, Seq<char>);

    open spec fn view(&self) -> (Seq<char>, Seq<char>) {
        (self.key@, self.value@)
    }
}

/// One call of the toolchain, as data.
#[derive(Clone, Debug, PartialEq, Eq)]
pub struct ToolchainInvocation {
    /// The program to run.
    pub program: String,
    /// The variables to set for it, in this order.
    pub env: Vec<EnvVar>,
    /// The directory to run it in: the root of the component's sources.
    pub working_dir: String,
    /// Its arguments, in this order.
    pub args: Vec<String>,
}

/// A [`ToolchainInvocation`] as plain values.
pub ghost struct ToolchainInvocationView {
    pub program: Seq<char>,
    pub env: Seq<(Seq<char>, Seq<char>)>,
    pub working_dir: Seq<char>,
    pub args: Seq<Seq<char>>,
}

impl View for ToolchainInvocation {
    type V = ToolchainInvocationView;

    open spec fn view(&self) -> ToolchainInvocationView {
        ToolchainInvocationView {
            program: self.program@,
            env: Seq::new(self.env@.len(), |i: int| self.env@[i]@),
            working_dir: self.working_dir@,
            args: Seq::new(self.args@.len(), |i: int| self.args@[i]@),
        }
    }
}

/// The arguments that ask for an artifact of shape `link_mode` at `output`,
/// built from the directory the toolchain runs in.
pub open spec fn spec_build_args(link_mode: LinkMode, output: Seq<char>) -> Seq<Seq<char>> {
    seq!["build"@, link_mode.spec_build_mode_flag(), "-o"@, output, "."@]
}

/// The variables of a cross compilation for `target`.
pub open spec fn spec_cross_env(target: BuildTargetView) -> Seq<(Seq<char>, Seq<char>)> {
    seq![
        ("CGO_ENABLED"@, "1"@),
        ("GOOS"@, target.operating_system.spec_name()),
        ("CC"@, target.cross_compiler_path),
        ("GOARCH"@, target.architecture.spec_name()),
        ("LDFLAGS"@, target.linker_flags),
    ]
}

/// The variables of a build for the machine that builds: the compiler, where
/// one is named, and module resolution switched on.
pub open spec fn spec_host_env(compiler: Option<Seq<char>>) -> Seq<(Seq<char>, Seq<char>)> {
    match compiler {
        Some(path) => seq![("CC"@, path), ("GO111MODULE"@, "on"@)],
        None => seq![("GO111MODULE"@, "on"@)],
    }
}

/// The call that builds for `target`, or the reason why none is made.
pub open spec fn spec_plan_build(
    target: BuildTargetView,
    source_root: Seq<char>,
    output: Seq<char>,
) -> Result<ToolchainInvocationView, ConfigError> {
    if target.architecture.spec_is_known() {
        Ok(
            ToolchainInvocationView {
                program: "go"@,
                env: spec_cross_env(target),
                working_dir: source_root,
                args: spec_build_args(target.link_mode, output),
            },
        )
    } else {
        Err(ConfigError::UnknownArchitecture)
    }
}

/// The call that builds for the machine that builds.
pub open spec fn spec_plan_host_build(
    compiler: Option<Seq<char>>,
    link_mode: LinkMode,
    source_root: Seq<char>,
    output: Seq<char>,
) -> ToolchainInvocationView {
    ToolchainInvocationView {
        program: "go"@,
        env: spec_host_env(compiler),
        working_dir: source_root,
        args: spec_build_args(link_mode, output),
    }
}

/// Whether `outcome` is what `expected` says, call for call and error for
/// error.
pub open spec fn spec_planned_as(
    outcome: Result<ToolchainInvocation, ConfigError>,
    expected: Result<ToolchainInvocationView, ConfigError>,
) -> bool {
    match outcome {
        Ok(invocation) => expected == Ok::<ToolchainInvocationView, ConfigError>(invocation@),
        Err(error) => expected == Err::<ToolchainInvocationView, ConfigError>(error),
    }
}

fn env_var(key: &str, value: &str) -> (var: EnvVar)
    ensures
        var@ == (key@, value@),
{
    EnvVar { key: String::from_str(key), value: String::from_str(value) }
}

fn build_args(link_mode: LinkMode, output: &str) -> (args: Vec<String>)
    ensures
        Seq::new(args@.len(), |i: int| args@[i]@) == spec_build_args(link_mode, output@),
{
    let mut args: Vec<String> = Vec::new();
    args.push(String::from_str("build"));
    args.push(String::from_str(link_mode.build_mode_flag()));
    args.push(String::from_str("-o"));
    args.push(String::from_str(output));
    args.push(String::from_str("."));
    assert(Seq::new(args@.len(), |i: int| args@[i]@) =~= spec_build_args(link_mode, output@));
    args
}

/// Plans the cross compilation for `target`: the toolchain run in
/// `source_root`, with the target's compiler, system, architecture and
/// linker flags, asked for an artifact of the target's shape at `output`.
///
/// No call is planned for an architecture that is not known.
pub fn plan_build(target: &BuildTarget, source_root: &str, output: &str) -> (outcome: Result<
    ToolchainInvocation,
    ConfigError,
>)
    ensures
        spec_planned_as(outcome, spec_plan_build(target@, source_root@, output@)),
{
    if !target.architecture.is_known() {
        return Err(ConfigError::UnknownArchitecture);
    }
    let mut env: Vec<EnvVar> = Vec::new();
    env.push(env_var("CGO_ENABLED", "1"));
    env.push(env_var("GOOS", target.operating_system.name()));
    env.push(env_var("CC", target.cross_compiler_path.as_str()));
    env.push(env_var("GOARCH", target.architecture.name()));
    env.push(env_var("LDFLAGS", target.linker_flags.as_str()));
    let invocation = ToolchainInvocation {
        program: String::from_str("go"),
        env,
        working_dir: String::from_str(source_root),
        args: build_args(target.link_mode, output),
    };
    assert(invocation@.env =~= spec_cross_env(target@));
    Ok(invocation)
}

/// Plans a build for the machine that builds: the toolchain run in
/// `source_root` with module resolution switched on and `compiler`, where
/// one is given, asked for an artifact of shape `link_mode` at `output`.
pub fn plan_host_build(
    compiler: Option<&str>,
    link_mode: LinkMode,
    source_root: &str,
    output: &str,
) -> (invocation: ToolchainInvocation)
    ensures
        invocation@ == spec_plan_host_build(
            match compiler {
                Some(path) => Some(path@),
                None => None,
            },
            link_mode,
            source_root@,
            output@,
        ),
{
    let mut env: Vec<EnvVar> = Vec::new();
    let ghost named: Option<Seq<char>> = match compiler {
        Some(path) => Some(path@),
        None => None,
    };
    match compiler {
        Some(path) => {
            env.push(env_var("CC", path));
        },
        None => {},
    }
    env.push(env_var("GO111MODULE", "on"));
    let invocation = ToolchainInvocation {
        program: String::from_str("go"),
        env,
        working_dir: String::from_str(source_root),
        args: build_args(link_mode, output),
    };
    assert(invocation@.env =~= spec_host_env(named));
    invocation
}

/// How a run of the toolchain ended.
#[derive(Clone, Copy, Debug, PartialEq, Eq, Structural)]
pub enum ToolchainOutcome {
    /// The process could not be started.
    NotStarted,
    /// The process ran and left with this code.
    Exited { code: i32 },
    /// The process was ended from outside and left no code.
    Interrupted,
}

/// Why a run of the toolchain ends the build.
#[derive(Clone, Copy, Debug, PartialEq, Eq, Structural)]
pub enum ToolchainFailure {
    /// The process could not be started.
    SpawnFailed,
    /// The process left with a code other than zero.
    ExitedWith { code: i32 },
    /// The process was ended from outside.
    Interrupted,
}

/// What an outcome means for the build: only a run that left with code zero
/// lets it go on.
pub open spec fn spec_judge_outcome(outcome: ToolchainOutcome) -> Result<(), ToolchainFailure> {
    match outcome {
        ToolchainOutcome::NotStarted => Err(ToolchainFailure::SpawnFailed),
        ToolchainOutcome::Exited { code } => if code == 0 {
            Ok(())
        } else {
            Err(ToolchainFailure::ExitedWith { code })
        },
        ToolchainOutcome::Interrupted => Err(ToolchainFailure::Interrupted),
    }
}

/// Judges how a run of the toolchain ended. Every failure is final: the run
/// is not tried again.
pub fn judge_outcome(outcome: ToolchainOutcome) -> (verdict: Result<(), ToolchainFailure>)
    ensures
        verdict == spec_judge_outcome(outcome),
{
    match outcome {
        ToolchainOutcome::NotStarted => Err(ToolchainFailure::SpawnFailed),
        ToolchainOutcome::Exited { code } => if code == 0 {
            Ok(())
        } else {
            Err(ToolchainFailure::ExitedWith { code })
        },
        ToolchainOutcome::Interrupted => Err(ToolchainFailure::Interrupted),
    }
}

/// The two shapes are asked for by different flags.
pub proof fn lemma_build_mode_flags_differ()
    ensures
        LinkMode::Static.spec_build_mode_flag() != LinkMode::Dynamic.spec_build_mode_flag(),
{
    reveal_strlit("-buildmode=c-archive");
    reveal_strlit("-buildmode=c-shared");
    assert("-buildmode=c-archive"@.len() == 20);
    assert("-buildmode=c-shared"@.len() == 19);
}

/// For every target whose architecture is known, a call is planned; it
/// directs the artifact to exactly the path that was asked for, and asks for
/// an archive if and only if the target is to be linked statically.
pub proof fn lemma_known_target_is_planned(
    target: BuildTargetView,
    source_root: Seq<char>,
    output: Seq<char>,
)
    requires
        target.architecture.spec_is_known(),
    ensures
        spec_plan_build(target, source_root, output) is Ok,
        spec_plan_build(target, source_root, output)->Ok_0.args.len() == 5,
        spec_plan_build(target, source_root, output)->Ok_0.args[2] == "-o"@,
        spec_plan_build(target, source_root, output)->Ok_0.args[3] == output,
        spec_plan_build(target, source_root, output)->Ok_0.working_dir == source_root,
        spec_plan_build(target, source_root, output)->Ok_0.args[1]
            == LinkMode::Static.spec_build_mode_flag() <==> target.link_mode == LinkMode::Static,
        spec_plan_build(target, source_root, output)->Ok_0.args[1]
            == LinkMode::Dynamic.spec_build_mode_flag() <==> target.link_mode
            == LinkMode::Dynamic,
{
    lemma_build_mode_flags_differ();
}

/// The same target, sources and output give the same call: planning keeps
/// nothing from one build to the next.
pub proof fn lemma_plan_is_repeatable(
    first: Result<ToolchainInvocation, ConfigError>,
    second: Result<ToolchainInvocation, ConfigError>,
    target: BuildTargetView,
    source_root: Seq<char>,
    output: Seq<char>,
)
    requires
        spec_planned_as(first, spec_plan_build(target, source_root, output)),
        spec_planned_as(second, spec_plan_build(target, source_root, output)),
    ensures
        first is Ok <==> second is Ok,
        first is Ok ==> first->Ok_0@ == second->Ok_0@,
        first is Err ==> first->Err_0 == second->Err_0,
{
}

} // verus!
