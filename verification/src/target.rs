//! Resolving what the second component is built for.
//!
//! The surrounding build names its target architecture in its own words and
//! hands over the cross compiler and the linker flags. A [`BuildTarget`] is
//! that, settled once and in the toolchain's vocabulary.

use crate::text::same_text;
use vstd::prelude::*;
use vstd::string::*;

verus! {

/// The variable in which the surrounding build names the target architecture.
pub const ARCHITECTURE_VARIABLE: &'static str = "CARGO_CFG_TARGET_ARCH";

/// The variable that holds the path of the cross compiler.
pub const COMPILER_VARIABLE: &'static str = "RUST_ANDROID_GRADLE_CC";

/// The variable that holds the flags for the linker.
pub const LINKER_FLAGS_VARIABLE: &'static str = "RUST_ANDROID_GRADLE_CC_LINK_ARG";

/// An architecture as the toolchain names it.
///
/// `Unknown` stands for every identifier that is not recognised: nothing is
/// guessed, and no build is planned for it.
#[derive(Clone, Copy, Debug, PartialEq, Eq, Structural)]
pub enum GoArch {
    Arm,
    Arm64,
    I386,
    Amd64,
    Unknown,
}

/// The operating system the artifact is built for.
#[derive(Clone, Copy, Debug, PartialEq, Eq, Structural)]
pub enum TargetOs {
    Android,
}

/// The shape of the artifact: an archive to link statically, or a shared
/// library to load.
#[derive(Clone, Copy, Debug, PartialEq, Eq, Structural)]
pub enum LinkMode {
    Static,
    Dynamic,
}

/// Why no target could be settled, or no build planned for it.
#[derive(Clone, Copy, Debug, PartialEq, Eq, Structural)]
pub enum ConfigError {
    /// The surrounding build did not name an architecture.
    MissingArchitecture,
    /// No cross compiler was handed over.
    MissingCompiler,
    /// No linker flags were handed over.
    MissingLinkerFlags,
    /// The architecture is not one the toolchain is known to build for.
    UnknownArchitecture,
}

/// The architecture that an identifier of the surrounding build stands for.
pub open spec fn spec_go_arch(id: Seq<char>) -> GoArch {
    if id == "arm"@ {
        GoArch::Arm
    } else if id == "arm64"@ || id == "aarch64"@ {
        GoArch::Arm64
    } else if id == "x86"@ {
        GoArch::I386
    } else if id == "x86_64"@ {
        GoArch::Amd64
    } else {
        GoArch::Unknown
    }
}

/// Maps an architecture identifier of the surrounding build to the
/// toolchain's architecture.
pub fn go_arch(id: &str) -> (arch: GoArch)
    ensures
        arch == spec_go_arch(id@),
{
    if same_text(id, "arm") {
        GoArch::Arm
    } else if same_text(id, "arm64") || same_text(id, "aarch64") {
        GoArch::Arm64
    } else if same_text(id, "x86") {
        GoArch::I386
    } else if same_text(id, "x86_64") {
        GoArch::Amd64
    } else {
        GoArch::Unknown
    }
}

impl GoArch {
    /// The word the toolchain uses for this architecture.
    pub open spec fn spec_name(self) -> Seq<char> {
        match self {
            GoArch::Arm => "arm"@,
            GoArch::Arm64 => "arm64"@,
            GoArch::I386 => "386"@,
            GoArch::Amd64 => "amd64"@,
            GoArch::Unknown => "unknown"@,
        }
    }

    /// Whether the toolchain can be asked to build for this architecture.
    pub open spec fn spec_is_known(self) -> bool {
        self != GoArch::Unknown
    }

    /// The word the toolchain uses for this architecture.
    pub fn name(self) -> (word: &'static str)
        ensures
            word@ == self.spec_name(),
    {
        match self {
            GoArch::Arm => "arm",
            GoArch::Arm64 => "arm64",
            GoArch::I386 => "386",
            GoArch::Amd64 => "amd64",
            GoArch::Unknown => "unknown",
        }
    }

    /// Whether the toolchain can be asked to build for this architecture.
    pub fn is_known(self) -> (known: bool)
        ensures
            known == self.spec_is_known(),
    {
        match self {
            GoArch::Unknown => false,
            _ => true,
        }
    }
}

impl TargetOs {
    /// The word the toolchain uses for this operating system.
    pub open spec fn spec_name(self) -> Seq<char> {
        match self {
            TargetOs::Android => "android"@,
        }
    }

    /// The word the toolchain uses for this operating system.
    pub fn name(self) -> (word: &'static str)
        ensures
            word@ == self.spec_name(),
    {
        match self {
            TargetOs::Android => "android",
        }
    }
}

impl LinkMode {
    /// The toolchain flag that asks for an artifact of this shape.
    pub open spec fn spec_build_mode_flag(self) -> Seq<char> {
        match self {
            LinkMode::Static => "-buildmode=c-archive"@,
            LinkMode::Dynamic => "-buildmode=c-shared"@,
        }
    }

    /// The toolchain flag that asks for an artifact of this shape.
    pub fn build_mode_flag(self) -> (flag: &'static str)
        ensures
            flag@ == self.spec_build_mode_flag(),
    {
        match self {
            LinkMode::Static => "-buildmode=c-archive",
            LinkMode::Dynamic => "-buildmode=c-shared",
        }
    }
}

/// What the surrounding build handed over, read once before anything is
/// decided. A field is `None` where the build said nothing.
#[derive(Clone, Debug, PartialEq, Eq)]
pub struct BuildEnvironment {
    pub target_arch: Option<String>,
    pub compiler: Option<String>,
    pub linker_flags: Option<String>,
}

/// A [`BuildEnvironment`] as plain values.
pub ghost struct BuildEnvironmentView {
    pub target_arch: Option<Seq<char>>,
    pub compiler: Option<Seq<char>>,
    pub linker_flags: Option<Seq<char>>,
}

/// The text of an optional string.
pub open spec fn spec_optional_text(text: Option<String>) -> Option<Seq<char>> {
    match text {
        Some(t) => Some(t@),
        None => None,
    }
}

impl View for BuildEnvironment {
    type V = BuildEnvironmentView;

    open spec fn view(&self) -> BuildEnvironmentView {
        BuildEnvironmentView {
            target_arch: spec_optional_text(self.target_arch),
            compiler: spec_optional_text(self.compiler),
            linker_flags: spec_optional_text(self.linker_flags),
        }
    }
}

/// One cross compilation, settled: what to build for, with what, and in
/// which shape.
#[derive(Clone, Debug, PartialEq, Eq)]
pub struct BuildTarget {
    pub architecture: GoArch,
    pub operating_system: TargetOs,
    pub cross_compiler_path: String,
    pub linker_flags: String,
    pub link_mode: LinkMode,
}

/// A [`BuildTarget`] as plain values.
pub ghost struct BuildTargetView {
    pub architecture: GoArch,
    pub operating_system: TargetOs,
    pub cross_compiler_path: Seq<char>,
    pub linker_flags: Seq<char>,
    pub link_mode: LinkMode,
}

impl View for BuildTarget {
    type V = BuildTargetView;

    open spec fn view(&self) -> BuildTargetView {
        BuildTargetView {
            architecture: self.architecture,
            operating_system: self.operating_system,
            cross_compiler_path: self.cross_compiler_path@,
            linker_flags: self.linker_flags@,
            link_mode: self.link_mode,
        }
    }
}

/// The target that an environment and a link mode settle, or the first thing
/// that is missing: the architecture, then the compiler, then the linker
/// flags.
pub open spec fn spec_resolve_target(env: BuildEnvironmentView, link_mode: LinkMode) -> Result<
    BuildTargetView,
    ConfigError,
> {
    if env.target_arch is None {
        Err(ConfigError::MissingArchitecture)
    } else if env.compiler is None {
        Err(ConfigError::MissingCompiler)
    } else if env.linker_flags is None {
        Err(ConfigError::MissingLinkerFlags)
    } else {
        Ok(
            BuildTargetView {
                architecture: spec_go_arch(env.target_arch->Some_0),
                operating_system: TargetOs::Android,
                cross_compiler_path: env.compiler->Some_0,
                linker_flags: env.linker_flags->Some_0,
                link_mode,
            },
        )
    }
}

/// Whether `outcome` is what `expected` says, target for target and error
/// for error.
pub open spec fn spec_resolved_as(
    outcome: Result<BuildTarget, ConfigError>,
    expected: Result<BuildTargetView, ConfigError>,
) -> bool {
    match outcome {
        Ok(target) => expected == Ok::<BuildTargetView, ConfigError>(target@),
        Err(error) => expected == Err::<BuildTargetView, ConfigError>(error),
    }
}

/// Settles the target of a build from what the surrounding build handed
/// over.
///
/// Everything is looked at before anything runs: a value that is missing is
/// reported here. An architecture that is not recognised is carried as
/// [`GoArch::Unknown`], for which no build is planned.
pub fn resolve_target(env: &BuildEnvironment, link_mode: LinkMode) -> (outcome: Result<
    BuildTarget,
    ConfigError,
>)
    ensures
        spec_resolved_as(outcome, spec_resolve_target(env@, link_mode)),
{
    match &env.target_arch {
        None => Err(ConfigError::MissingArchitecture),
        Some(arch) => match &env.compiler {
            None => Err(ConfigError::MissingCompiler),
            Some(compiler) => match &env.linker_flags {
                None => Err(ConfigError::MissingLinkerFlags),
                Some(flags) => Ok(
                    BuildTarget {
                        architecture: go_arch(arch.as_str()),
                        operating_system: TargetOs::Android,
                        cross_compiler_path: compiler.clone(),
                        linker_flags: flags.clone(),
                        link_mode,
                    },
                ),
            },
        },
    }
}

} // verus!
