//! `frc check`: the command line that checks a project, and what is made of
//! how its run ends.

use vstd::prelude::*;
use vstd::string::*;
use crate::cmds::arguments::{
    cfg_option, cmd_config, lemma_grouping, listed, nested_text, program, program_name,
    push_argument,
    push_listed, push_selected, push_switch, push_valued, selected, switch, valued, Invocation, Run,
};
use crate::configs::project_config::{
    ProjectConfig, Runtimes, TargetDirs, DEFAULT_CFG, DEV_CFG, RUNTIME_REAL_CFG, RUNTIME_SIM_CFG,
};
use crate::errors::CheckSubcommandError;
use crate::decimal::{decimal_digits, decimal_text};
use crate::text::{optional_text, texts};

verus! {

/// What `frc check` is asked for: what to check for, and what is handed on
/// to cargo as it is.
#[derive(Debug)]
pub struct Check {
    pub sim: bool,
    pub real: bool,
    pub dev: bool,
    pub config: Vec<String>,
    pub unstable_flags: Vec<String>,
    pub change_dir: Option<String>,
    pub package: Option<Option<String>>,
    pub workspace: bool,
    pub exclude: Vec<String>,
    pub lib: bool,
    pub bin: Option<Option<String>>,
    pub example: Option<Option<String>>,
    pub test: Option<Option<String>>,
    pub tests: bool,
    pub bench: Option<Option<String>>,
    pub features: Option<String>,
    pub all_features: bool,
    pub no_default_features: bool,
    pub release: bool,
    pub profile: Option<String>,
    pub target: Option<String>,
    pub all_targets: bool,
    pub manifest_path: Option<String>,
    pub frozen: bool,
    pub locked: bool,
    pub offline: bool,
    pub verbose: bool,
    pub quiet: bool,
    pub color: Option<String>,
    pub message_format: Option<String>,
    pub jobs: Option<u64>,
    pub keep_going: bool,
    pub future_incompat_report: bool,
}

/// What is checked for: the simulator where `sim` asks for it, else the
/// robot where `real` does, else what the project checks for by default.
pub open spec fn runtime_of(for_sim: bool, for_real: bool, default_check: Runtimes) -> Runtimes {
    if for_sim {
        Runtimes::Sim
    } else if for_real {
        Runtimes::Real
    } else {
        default_check
    }
}

/// The configuration flag of a runtime.
pub open spec fn runtime_cfg(runtime: Runtimes) -> Seq<char> {
    match runtime {
        Runtimes::Real => RUNTIME_REAL_CFG@,
        Runtimes::Sim => RUNTIME_SIM_CFG@,
    }
}

/// The directory that a build for `runtime` goes to.
pub open spec fn target_dir_of(runtime: Runtimes, dev: bool, dirs: TargetDirs) -> Seq<char> {
    match runtime {
        Runtimes::Real => if dev {
            dirs.real_dev@
        } else {
            dirs.real@
        },
        Runtimes::Sim => if dev {
            dirs.sim_dev@
        } else {
            dirs.sim@
        },
    }
}

/// The number of jobs as an argument.
pub open spec fn jobs_text(jobs: Option<u64>) -> Option<Seq<char>> {
    match jobs {
        Some(number) => Some(decimal_digits(number as nat)),
        None => None,
    }
}

/// What is checked: with clippy, for every build, for a development build
/// where `dev` asks for one, for the runtime, and into its directory.
pub open spec fn usage_arguments(check: Check, config: ProjectConfig) -> Seq<Seq<char>> {
    let runtime = runtime_of(check.sim, check.real, config.default_check);
    seq!["clippy"@] + cfg_option(DEFAULT_CFG@) + switched_cfg(check.dev, DEV_CFG@) + cfg_option(
        runtime_cfg(runtime),
    ) + seq!["--target-dir"@, target_dir_of(runtime, check.dev, config.target_dirs)]
}

/// The arguments that turn the configuration flag `cfg` on, where `on` is
/// set.
pub open spec fn switched_cfg(on: bool, cfg: Seq<char>) -> Seq<Seq<char>> {
    if on {
        cfg_option(cfg)
    } else {
        Seq::empty()
    }
}

/// The options that every command of cargo takes.
pub open spec fn common_arguments(check: Check) -> Seq<Seq<char>> {
    listed(texts(check.config@), "--config"@) + listed(texts(check.unstable_flags@), "-Z"@)
        + valued(optional_text(check.change_dir), "-C"@)
}

/// The options that select packages.
pub open spec fn package_arguments(check: Check) -> Seq<Seq<char>> {
    selected(nested_text(check.package), "--package"@) + switch(check.workspace, "--workspace"@)
        + listed(texts(check.exclude@), "--exclude"@)
}

/// The options that select targets.
pub open spec fn target_arguments(check: Check) -> Seq<Seq<char>> {
    switch(check.lib, "--lib"@) + selected(nested_text(check.bin), "--bin"@) + selected(
        nested_text(check.example),
        "--example"@,
    ) + selected(nested_text(check.test), "--test"@) + switch(check.tests, "--tests"@) + selected(
        nested_text(check.bench),
        "--bench"@,
    )
}

/// The options that select features.
pub open spec fn feature_arguments(check: Check) -> Seq<Seq<char>> {
    valued(optional_text(check.features), "-F"@) + switch(check.all_features, "--all-features"@)
        + switch(check.no_default_features, "--no-default-features"@)
}

/// The options of the compilation.
pub open spec fn compilation_arguments(check: Check) -> Seq<Seq<char>> {
    switch(check.release, "--release"@) + valued(optional_text(check.profile), "--profile"@)
        + valued(optional_text(check.target), "--target"@) + switch(
        check.all_targets,
        "--all-targets"@,
    )
}

/// The options on the manifest.
pub open spec fn manifest_arguments(check: Check) -> Seq<Seq<char>> {
    valued(optional_text(check.manifest_path), "--manifest-path"@) + switch(
        check.frozen,
        "--frozen"@,
    ) + switch(check.locked, "--locked"@) + switch(check.offline, "--offline"@)
}

/// The options on what is shown.
pub open spec fn display_arguments(check: Check) -> Seq<Seq<char>> {
    switch(check.verbose, "-v"@) + switch(check.quiet, "--quiet"@) + valued(
        optional_text(check.color),
        "--color"@,
    ) + valued(optional_text(check.message_format), "--message-format"@)
}

/// The other options.
pub open spec fn misc_arguments(check: Check) -> Seq<Seq<char>> {
    valued(jobs_text(check.jobs), "-j"@) + switch(check.keep_going, "--keep-going"@) + switch(
        check.future_incompat_report,
        "--future-incompat-report"@,
    )
}

/// The arguments that `frc check` hands to cargo, in their order.
pub open spec fn check_arguments(check: Check, config: ProjectConfig) -> Seq<Seq<char>> {
    usage_arguments(check, config) + common_arguments(check) + package_arguments(check)
        + target_arguments(check) + feature_arguments(check) + compilation_arguments(check)
        + manifest_arguments(check) + display_arguments(check) + misc_arguments(check)
}

/// What `frc check` comes to, given how the run of cargo has ended.
pub open spec fn check_result(run: Run) -> Result<(), CheckSubcommandError> {
    match run {
        Run::NotSpawned => Err(CheckSubcommandError::FailedToSpawnCargoCheck),
        Run::NotAwaited => Err(CheckSubcommandError::FailedToWaitForCargoCheck),
        Run::Exited { success, code } => if success {
            Ok(())
        } else {
            Err(CheckSubcommandError::FailedCargoCheck { code })
        },
    }
}

/// Adds what is checked.
fn push_usage(arguments: &mut Vec<String>, check: &Check, config: &ProjectConfig)
    ensures
        texts(final(arguments)@) == texts(old(arguments)@) + usage_arguments(*check, *config),
{
    let ghost before = texts(arguments@);
    push_argument(arguments, "clippy");
    cmd_config(arguments, DEFAULT_CFG);
    if check.dev {
        cmd_config(arguments, DEV_CFG);
    }
    let runtime = if check.sim {
        Runtimes::Sim
    } else if check.real {
        Runtimes::Real
    } else {
        config.default_check
    };
    match runtime {
        Runtimes::Real => {
            cmd_config(arguments, RUNTIME_REAL_CFG);
            push_argument(arguments, "--target-dir");
            if check.dev {
                push_argument(arguments, config.target_dirs.real_dev.as_str());
            } else {
                push_argument(arguments, config.target_dirs.real.as_str());
            }
        },
        Runtimes::Sim => {
            cmd_config(arguments, RUNTIME_SIM_CFG);
            push_argument(arguments, "--target-dir");
            if check.dev {
                push_argument(arguments, config.target_dirs.sim_dev.as_str());
            } else {
                push_argument(arguments, config.target_dirs.sim.as_str());
            }
        },
    }
    assert(texts(arguments@) =~= before + usage_arguments(*check, *config));
}

/// Adds the options that every command of cargo takes.
fn push_common(arguments: &mut Vec<String>, check: &Check)
    ensures
        texts(final(arguments)@) == texts(old(arguments)@) + common_arguments(*check),
{
    let ghost before = texts(arguments@);
    push_listed(arguments, &check.config, "--config");
    push_listed(arguments, &check.unstable_flags, "-Z");
    push_valued(arguments, &check.change_dir, "-C");
    assert(texts(arguments@) =~= before + common_arguments(*check));
}

/// Adds the options that select packages.
fn push_package(arguments: &mut Vec<String>, check: &Check)
    ensures
        texts(final(arguments)@) == texts(old(arguments)@) + package_arguments(*check),
{
    let ghost before = texts(arguments@);
    push_selected(arguments, &check.package, "--package");
    push_switch(arguments, check.workspace, "--workspace");
    push_listed(arguments, &check.exclude, "--exclude");
    assert(texts(arguments@) =~= before + package_arguments(*check));
}

/// Adds the options that select targets.
fn push_target(arguments: &mut Vec<String>, check: &Check)
    ensures
        texts(final(arguments)@) == texts(old(arguments)@) + target_arguments(*check),
{
    let ghost before = texts(arguments@);
    push_switch(arguments, check.lib, "--lib");
    let ghost mut pieces = switch(check.lib, "--lib"@);
    push_selected(arguments, &check.bin, "--bin");
    proof {
        lemma_grouping(before, pieces, selected(nested_text(check.bin), "--bin"@));
        pieces = pieces + selected(nested_text(check.bin), "--bin"@);
    }
    push_selected(arguments, &check.example, "--example");
    proof {
        lemma_grouping(before, pieces, selected(nested_text(check.example), "--example"@));
        pieces = pieces + selected(nested_text(check.example), "--example"@);
    }
    push_selected(arguments, &check.test, "--test");
    proof {
        lemma_grouping(before, pieces, selected(nested_text(check.test), "--test"@));
        pieces = pieces + selected(nested_text(check.test), "--test"@);
    }
    push_switch(arguments, check.tests, "--tests");
    proof {
        lemma_grouping(before, pieces, switch(check.tests, "--tests"@));
        pieces = pieces + switch(check.tests, "--tests"@);
    }
    push_selected(arguments, &check.bench, "--bench");
    proof {
        lemma_grouping(before, pieces, selected(nested_text(check.bench), "--bench"@));
    }
}

/// Adds the options that select features.
fn push_feature(arguments: &mut Vec<String>, check: &Check)
    ensures
        texts(final(arguments)@) == texts(old(arguments)@) + feature_arguments(*check),
{
    let ghost before = texts(arguments@);
    push_valued(arguments, &check.features, "-F");
    push_switch(arguments, check.all_features, "--all-features");
    push_switch(arguments, check.no_default_features, "--no-default-features");
    assert(texts(arguments@) =~= before + feature_arguments(*check));
}

/// Adds the options of the compilation.
fn push_compilation(arguments: &mut Vec<String>, check: &Check)
    ensures
        texts(final(arguments)@) == texts(old(arguments)@) + compilation_arguments(*check),
{
    let ghost before = texts(arguments@);
    push_switch(arguments, check.release, "--release");
    push_valued(arguments, &check.profile, "--profile");
    push_valued(arguments, &check.target, "--target");
    push_switch(arguments, check.all_targets, "--all-targets");
    assert(texts(arguments@) =~= before + compilation_arguments(*check));
}

/// Adds the options on the manifest.
fn push_manifest(arguments: &mut Vec<String>, check: &Check)
    ensures
        texts(final(arguments)@) == texts(old(arguments)@) + manifest_arguments(*check),
{
    let ghost before = texts(arguments@);
    push_valued(arguments, &check.manifest_path, "--manifest-path");
    push_switch(arguments, check.frozen, "--frozen");
    push_switch(arguments, check.locked, "--locked");
    push_switch(arguments, check.offline, "--offline");
    assert(texts(arguments@) =~= before + manifest_arguments(*check));
}

/// Adds the options on what is shown.
fn push_display(arguments: &mut Vec<String>, check: &Check)
    ensures
        texts(final(arguments)@) == texts(old(arguments)@) + display_arguments(*check),
{
    let ghost before = texts(arguments@);
    push_switch(arguments, check.verbose, "-v");
    push_switch(arguments, check.quiet, "--quiet");
    push_valued(arguments, &check.color, "--color");
    push_valued(arguments, &check.message_format, "--message-format");
    assert(texts(arguments@) =~= before + display_arguments(*check));
}

/// Adds the other options.
fn push_misc(arguments: &mut Vec<String>, check: &Check)
    ensures
        texts(final(arguments)@) == texts(old(arguments)@) + misc_arguments(*check),
{
    let ghost before = texts(arguments@);
    let jobs = match check.jobs {
        Some(number) => Some(decimal_text(number)),
        None => None,
    };
    push_valued(arguments, &jobs, "-j");
    push_switch(arguments, check.keep_going, "--keep-going");
    push_switch(arguments, check.future_incompat_report, "--future-incompat-report");
    assert(texts(arguments@) =~= before + misc_arguments(*check));
}

/// The command line of `frc check`; `cargo` is what the variable `CARGO`
/// holds, if it is set.
pub fn check_invocation(
    check: &Check,
    config: &ProjectConfig,
    cargo: Option<String>,
) -> (invocation: Invocation)
    ensures
        invocation.program@ == program_name(optional_text(cargo)),
        invocation.team_number@ == decimal_digits(config.team.0 as nat),
        texts(invocation.arguments@) == check_arguments(*check, *config),
{
    let mut arguments: Vec<String> = Vec::new();
    assert(texts(arguments@) =~= Seq::empty());
    push_usage(&mut arguments, check, config);
    assert(texts(arguments@) =~= usage_arguments(*check, *config));
    push_common(&mut arguments, check);
    push_package(&mut arguments, check);
    push_target(&mut arguments, check);
    push_feature(&mut arguments, check);
    push_compilation(&mut arguments, check);
    push_manifest(&mut arguments, check);
    push_display(&mut arguments, check);
    push_misc(&mut arguments, check);
    Invocation {
        program: program(cargo),
        arguments,
        team_number: decimal_text(config.team.0 as u64),
    }
}

/// What `frc check` comes to, given how the run of cargo has ended.
pub fn check_outcome(run: Run) -> (outcome: Result<(), CheckSubcommandError>)
    ensures
        outcome == check_result(run),
{
    match run {
        Run::NotSpawned => Err(CheckSubcommandError::FailedToSpawnCargoCheck),
        Run::NotAwaited => Err(CheckSubcommandError::FailedToWaitForCargoCheck),
        Run::Exited { success, code } => {
            if success {
                Ok(())
            } else {
                Err(CheckSubcommandError::FailedCargoCheck { code })
            }
        },
    }
}

} // verus!
