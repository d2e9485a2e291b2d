use probeengine::orchestrator::{
    judge_outcome, plan_build, plan_host_build, EnvVar, ToolchainFailure, ToolchainInvocation,
    ToolchainOutcome,
};
use probeengine::target::{
    go_arch, resolve_target, BuildEnvironment, BuildTarget, ConfigError, GoArch, LinkMode,
    TargetOs,
};

fn var(key: &str, value: &str) -> EnvVar {
    EnvVar { key: String::from(key), value: String::from(value) }
}

fn target(architecture: GoArch, link_mode: LinkMode) -> BuildTarget {
    BuildTarget {
        architecture,
        operating_system: TargetOs::Android,
        cross_compiler_path: String::from("/opt/ndk/clang"),
        linker_flags: String::from("-L/opt/ndk/lib"),
        link_mode,
    }
}

#[test]
fn android_x86_64_dynamic_is_planned() {
    let env = BuildEnvironment {
        target_arch: Some(String::from("x86_64")),
        compiler: Some(String::from("/opt/ndk/clang")),
        linker_flags: Some(String::from("-L/opt/ndk/lib")),
    };
    let resolved = resolve_target(&env, LinkMode::Dynamic).unwrap();
    let planned = plan_build(&resolved, "./go", "/out/libgo.so").unwrap();
    assert_eq!(
        planned,
        ToolchainInvocation {
            program: String::from("go"),
            env: vec![
                var("CGO_ENABLED", "1"),
                var("GOOS", "android"),
                var("CC", "/opt/ndk/clang"),
                var("GOARCH", "amd64"),
                var("LDFLAGS", "-L/opt/ndk/lib"),
            ],
            working_dir: String::from("./go"),
            args: vec![
                String::from("build"),
                String::from("-buildmode=c-shared"),
                String::from("-o"),
                String::from("/out/libgo.so"),
                String::from("."),
            ],
        }
    );
}

#[test]
fn an_unrecognised_architecture_is_not_planned() {
    assert_eq!(go_arch("riscv32"), GoArch::Unknown);
    let env = BuildEnvironment {
        target_arch: Some(String::from("riscv32")),
        compiler: Some(String::from("/opt/ndk/clang")),
        linker_flags: Some(String::from("-L/opt/ndk/lib")),
    };
    let resolved = resolve_target(&env, LinkMode::Dynamic).unwrap();
    assert_eq!(
        plan_build(&resolved, "./go", "/out/libgo.so"),
        Err(ConfigError::UnknownArchitecture)
    );
}

#[test]
fn a_static_target_asks_for_an_archive() {
    let planned = plan_build(&target(GoArch::Arm64, LinkMode::Static), "src", "out/libgo.a").unwrap();
    assert_eq!(planned.args[1], "-buildmode=c-archive");
    assert_eq!(planned.args[3], "out/libgo.a");
    assert_eq!(planned.env[3], var("GOARCH", "arm64"));
}

#[test]
fn every_supported_target_is_planned_for_its_path_and_shape() {
    let architectures = [GoArch::Arm, GoArch::Arm64, GoArch::I386, GoArch::Amd64];
    let modes = [
        (LinkMode::Static, "-buildmode=c-archive"),
        (LinkMode::Dynamic, "-buildmode=c-shared"),
    ];
    for architecture in architectures.iter() {
        for (mode, flag) in modes.iter() {
            let planned = plan_build(&target(*architecture, *mode), "root", "some/where/lib").unwrap();
            assert_eq!(planned.program, "go");
            assert_eq!(planned.working_dir, "root");
            assert_eq!(planned.args, vec!["build", *flag, "-o", "some/where/lib", "."]);
            assert_eq!(planned.env.len(), 5);
            assert_eq!(planned.env[1], var("GOOS", "android"));
            assert_eq!(planned.env[3], var("GOARCH", architecture.name()));
        }
    }
}

#[test]
fn planning_twice_gives_the_same_call() {
    let t = target(GoArch::I386, LinkMode::Dynamic);
    assert_eq!(plan_build(&t, "a", "b"), plan_build(&t, "a", "b"));
}

#[test]
fn a_host_build_names_its_compiler() {
    let planned = plan_host_build(Some("/usr/bin/cc"), LinkMode::Static, "./go", "libgo.a");
    assert_eq!(
        planned,
        ToolchainInvocation {
            program: String::from("go"),
            env: vec![var("CC", "/usr/bin/cc"), var("GO111MODULE", "on")],
            working_dir: String::from("./go"),
            args: vec![
                String::from("build"),
                String::from("-buildmode=c-archive"),
                String::from("-o"),
                String::from("libgo.a"),
                String::from("."),
            ],
        }
    );
}

#[test]
fn a_host_build_without_a_compiler_sets_only_module_resolution() {
    let planned = plan_host_build(None, LinkMode::Dynamic, "./go", "libgo.so");
    assert_eq!(planned.env, vec![var("GO111MODULE", "on")]);
    assert_eq!(planned.args[1], "-buildmode=c-shared");
    assert_eq!(planned.args[3], "libgo.so");
}

#[test]
fn only_exit_code_zero_lets_the_build_go_on() {
    assert_eq!(judge_outcome(ToolchainOutcome::Exited { code: 0 }), Ok(()));
    assert_eq!(
        judge_outcome(ToolchainOutcome::Exited { code: 1 }),
        Err(ToolchainFailure::ExitedWith { code: 1 })
    );
    assert_eq!(
        judge_outcome(ToolchainOutcome::Exited { code: -1 }),
        Err(ToolchainFailure::ExitedWith { code: -1 })
    );
    assert_eq!(judge_outcome(ToolchainOutcome::NotStarted), Err(ToolchainFailure::SpawnFailed));
    assert_eq!(judge_outcome(ToolchainOutcome::Interrupted), Err(ToolchainFailure::Interrupted));
}
