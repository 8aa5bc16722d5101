//! `frc test`: the command line that tests a project in the simulator, and
//! what is made of how its run ends.

use vstd::prelude::*;
use vstd::string::*;
use crate::cmds::arguments::{
    cfg_option, cmd_config, comma_listed, lemma_grouping, nested_text, program, program_name,
    push_argument, push_comma_listed, push_selected, push_switch, push_valued, selected, switch,
    valued, Invocation, Run,
};
use crate::cmds::checker::{jobs_text, switched_cfg};
use crate::configs::project_config::{ProjectConfig, DEFAULT_CFG, DEV_CFG, RUNTIME_SIM_CFG};
use crate::errors::TestSubcommandError;
use crate::decimal::{decimal_digits, decimal_text};
use crate::text::{optional_text, texts};

verus! {

/// What `frc test` is asked for: whether to leave the development flag
/// out, and what is handed on to cargo as it is.
#[derive(Debug)]
pub struct Test {
    pub no_dev: bool,
    pub no_run: bool,
    pub no_fail_fast: bool,
    pub config: Vec<String>,
    pub unstable_flags: Vec<String>,
    pub change_dir: Option<String>,
    pub package: Option<Option<String>>,
    pub workspace: bool,
    pub exclude: Vec<String>,
    pub lib: bool,
    pub bin: Option<Option<String>>,
    pub bins: bool,
    pub example: Option<Option<String>>,
    pub test: Option<Option<String>>,
    pub tests: bool,
    pub bench: Option<Option<String>>,
    pub benches: bool,
    pub features: Option<String>,
    pub all_features: bool,
    pub no_default_features: bool,
    pub target: Option<String>,
    pub release: bool,
    pub profile: Option<String>,
    pub all_targets: bool,
    pub target_dir: Option<String>,
    pub manifest_path: Option<String>,
    pub frozen: bool,
    pub locked: bool,
    pub offline: bool,
    pub verbose: bool,
    pub quiet: bool,
    pub color: Option<String>,
    pub message_format: Option<String>,
    pub jobs: Option<u64>,
    pub future_incompat_report: bool,
    /// What follows the options, for the tests themselves.
    pub trailing: Vec<String>,
}

/// What is tested: every build, a development build unless `no_dev` asks
/// for none, into its directory, for the simulator.
pub open spec fn usage_arguments(test: Test, config: ProjectConfig) -> Seq<Seq<char>> {
    seq!["test"@] + cfg_option(DEFAULT_CFG@) + switched_cfg(!test.no_dev, DEV_CFG@) + seq![
        "--target-dir"@,
        if test.no_dev {
            config.target_dirs.sim@
        } else {
            config.target_dirs.sim_dev@
        },
    ] + cfg_option(RUNTIME_SIM_CFG@)
}

/// The options on how the tests are run.
pub open spec fn run_arguments(test: Test) -> Seq<Seq<char>> {
    switch(test.no_run, "--no-run"@) + switch(test.no_fail_fast, "--no-fail-fast"@)
}

/// The options that every command of cargo takes.
pub open spec fn common_arguments(test: Test) -> Seq<Seq<char>> {
    comma_listed(texts(test.config@), "--config"@) + comma_listed(
        texts(test.unstable_flags@),
        "-Z"@,
    ) + valued(optional_text(test.change_dir), "-C"@)
}

/// The options that select packages.
pub open spec fn package_arguments(test: Test) -> Seq<Seq<char>> {
    selected(nested_text(test.package), "--package"@) + switch(test.workspace, "--workspace"@)
        + comma_listed(texts(test.exclude@), "--exclude"@)
}

/// The options that select targets.
pub open spec fn target_arguments(test: Test) -> Seq<Seq<char>> {
    switch(test.lib, "--lib"@) + selected(nested_text(test.bin), "--bin"@) + switch(
        test.bins,
        "--bins"@,
    ) + selected(nested_text(test.example), "--example"@) + selected(
        nested_text(test.test),
        "--test"@,
    ) + switch(test.tests, "--tests"@) + selected(nested_text(test.bench), "--bench"@) + switch(
        test.benches,
        "--benches"@,
    )
}

/// The options that select features.
pub open spec fn feature_arguments(test: Test) -> Seq<Seq<char>> {
    valued(optional_text(test.features), "-F"@) + switch(test.all_features, "--all-features"@)
        + switch(test.no_default_features, "--no-default-features"@)
}

/// The options of the compilation.
pub open spec fn compilation_arguments(test: Test) -> Seq<Seq<char>> {
    valued(optional_text(test.target), "--target"@) + switch(test.release, "--release"@) + valued(
        optional_text(test.profile),
        "--profile"@,
    ) + switch(test.all_targets, "--all-targets"@) + valued(
        optional_text(test.target_dir),
        "--target-dir"@,
    )
}

/// The options on the manifest.
pub open spec fn manifest_arguments(test: Test) -> Seq<Seq<char>> {
    valued(optional_text(test.manifest_path), "--manifest-path"@) + switch(
        test.frozen,
        "--frozen"@,
    ) + switch(test.locked, "--locked"@) + switch(test.offline, "--offline"@)
}

/// The options on what is shown.
pub open spec fn display_arguments(test: Test) -> Seq<Seq<char>> {
    switch(test.verbose, "-v"@) + switch(test.quiet, "-q"@) + valued(
        optional_text(test.color),
        "--color"@,
    ) + valued(optional_text(test.message_format), "--message-format"@)
}

/// The other options.
pub open spec fn misc_arguments(test: Test) -> Seq<Seq<char>> {
    valued(jobs_text(test.jobs), "-j"@) + switch(
        test.future_incompat_report,
        "--future-incompat-report"@,
    )
}

/// The arguments that `frc test` hands to cargo, in their order; what is
/// for the tests themselves comes last.
pub open spec fn test_arguments(test: Test, config: ProjectConfig) -> Seq<Seq<char>> {
    usage_arguments(test, config) + run_arguments(test) + common_arguments(test)
        + package_arguments(test) + target_arguments(test) + feature_arguments(test)
        + compilation_arguments(test) + manifest_arguments(test) + display_arguments(test)
        + misc_arguments(test) + texts(test.trailing@)
}

/// What `frc test` comes to, given how the run of cargo has ended.
pub open spec fn test_result(run: Run) -> Result<(), TestSubcommandError> {
    match run {
        Run::NotSpawned => Err(TestSubcommandError::FailedToSpawnCargoTest),
        Run::NotAwaited => Err(TestSubcommandError::FailedToWaitForCargoTest),
        Run::Exited { success, code } => if success {
            Ok(())
        } else {
            Err(TestSubcommandError::FailedCargoTest { code })
        },
    }
}

/// Adds what is tested.
fn push_usage(arguments: &mut Vec<String>, test: &Test, config: &ProjectConfig)
    ensures
        texts(final(arguments)@) == texts(old(arguments)@) + usage_arguments(*test, *config),
{
    let ghost before = texts(arguments@);
    push_argument(arguments, "test");
    cmd_config(arguments, DEFAULT_CFG);
    if !test.no_dev {
        cmd_config(arguments, DEV_CFG);
        push_argument(arguments, "--target-dir");
        push_argument(arguments, config.target_dirs.sim_dev.as_str());
    } else {
        push_argument(arguments, "--target-dir");
        push_argument(arguments, config.target_dirs.sim.as_str());
    }
    cmd_config(arguments, RUNTIME_SIM_CFG);
    assert(texts(arguments@) =~= before + usage_arguments(*test, *config));
}

/// Adds the options on how the tests are run.
fn push_run(arguments: &mut Vec<String>, test: &Test)
    ensures
        texts(final(arguments)@) == texts(old(arguments)@) + run_arguments(*test),
{
    let ghost before = texts(arguments@);
    push_switch(arguments, test.no_run, "--no-run");
    push_switch(arguments, test.no_fail_fast, "--no-fail-fast");
    assert(texts(arguments@) =~= before + run_arguments(*test));
}

/// Adds the options that every command of cargo takes.
fn push_common(arguments: &mut Vec<String>, test: &Test)
    ensures
        texts(final(arguments)@) == texts(old(arguments)@) + common_arguments(*test),
{
    let ghost before = texts(arguments@);
    push_comma_listed(arguments, &test.config, "--config");
    push_comma_listed(arguments, &test.unstable_flags, "-Z");
    push_valued(arguments, &test.change_dir, "-C");
    assert(texts(arguments@) =~= before + common_arguments(*test));
}

/// Adds the options that select packages.
fn push_package(arguments: &mut Vec<String>, test: &Test)
    ensures
        texts(final(arguments)@) == texts(old(arguments)@) + package_arguments(*test),
{
    let ghost before = texts(arguments@);
    push_selected(arguments, &test.package, "--package");
    push_switch(arguments, test.workspace, "--workspace");
    push_comma_listed(arguments, &test.exclude, "--exclude");
    assert(texts(arguments@) =~= before + package_arguments(*test));
}

/// Adds the options that select targets.
fn push_target(arguments: &mut Vec<String>, test: &Test)
    ensures
        texts(final(arguments)@) == texts(old(arguments)@) + target_arguments(*test),
{
    let ghost before = texts(arguments@);
    push_switch(arguments, test.lib, "--lib");
    let ghost mut pieces = switch(test.lib, "--lib"@);
    push_selected(arguments, &test.bin, "--bin");
    proof {
        lemma_grouping(before, pieces, selected(nested_text(test.bin), "--bin"@));
        pieces = pieces + selected(nested_text(test.bin), "--bin"@);
    }
    push_switch(arguments, test.bins, "--bins");
    proof {
        lemma_grouping(before, pieces, switch(test.bins, "--bins"@));
        pieces = pieces + switch(test.bins, "--bins"@);
    }
    push_selected(arguments, &test.example, "--example");
    proof {
        lemma_grouping(before, pieces, selected(nested_text(test.example), "--example"@));
        pieces = pieces + selected(nested_text(test.example), "--example"@);
    }
    push_selected(arguments, &test.test, "--test");
    proof {
        lemma_grouping(before, pieces, selected(nested_text(test.test), "--test"@));
        pieces = pieces + selected(nested_text(test.test), "--test"@);
    }
    push_switch(arguments, test.tests, "--tests");
    proof {
        lemma_grouping(before, pieces, switch(test.tests, "--tests"@));
        pieces = pieces + switch(test.tests, "--tests"@);
    }
    push_selected(arguments, &test.bench, "--bench");
    proof {
        lemma_grouping(before, pieces, selected(nested_text(test.bench), "--bench"@));
        pieces = pieces + selected(nested_text(test.bench), "--bench"@);
    }
    push_switch(arguments, test.benches, "--benches");
    proof {
        lemma_grouping(before, pieces, switch(test.benches, "--benches"@));
    }
}

/// Adds the options that select features.
fn push_feature(arguments: &mut Vec<String>, test: &Test)
    ensures
        texts(final(arguments)@) == texts(old(arguments)@) + feature_arguments(*test),
{
    let ghost before = texts(arguments@);
    push_valued(arguments, &test.features, "-F");
    push_switch(arguments, test.all_features, "--all-features");
    push_switch(arguments, test.no_default_features, "--no-default-features");
    assert(texts(arguments@) =~= before + feature_arguments(*test));
}

/// Adds the options of the compilation.
fn push_compilation(arguments: &mut Vec<String>, test: &Test)
    ensures
        texts(final(arguments)@) == texts(old(arguments)@) + compilation_arguments(*test),
{
    let ghost before = texts(arguments@);
    push_valued(arguments, &test.target, "--target");
    let ghost mut pieces = valued(optional_text(test.target), "--target"@);
    push_switch(arguments, test.release, "--release");
    proof {
        lemma_grouping(before, pieces, switch(test.release, "--release"@));
        pieces = pieces + switch(test.release, "--release"@);
    }
    push_valued(arguments, &test.profile, "--profile");
    proof {
        lemma_grouping(before, pieces, valued(optional_text(test.profile), "--profile"@));
        pieces = pieces + valued(optional_text(test.profile), "--profile"@);
    }
    push_switch(arguments, test.all_targets, "--all-targets");
    proof {
        lemma_grouping(before, pieces, switch(test.all_targets, "--all-targets"@));
        pieces = pieces + switch(test.all_targets, "--all-targets"@);
    }
    push_valued(arguments, &test.target_dir, "--target-dir");
    proof {
        lemma_grouping(before, pieces, valued(optional_text(test.target_dir), "--target-dir"@));
    }
}

/// Adds the options on the manifest.
fn push_manifest(arguments: &mut Vec<String>, test: &Test)
    ensures
        texts(final(arguments)@) == texts(old(arguments)@) + manifest_arguments(*test),
{
    let ghost before = texts(arguments@);
    push_valued(arguments, &test.manifest_path, "--manifest-path");
    push_switch(arguments, test.frozen, "--frozen");
    push_switch(arguments, test.locked, "--locked");
    push_switch(arguments, test.offline, "--offline");
    assert(texts(arguments@) =~= before + manifest_arguments(*test));
}

/// Adds the options on what is shown.
fn push_display(arguments: &mut Vec<String>, test: &Test)
    ensures
        texts(final(arguments)@) == texts(old(arguments)@) + display_arguments(*test),
{
    let ghost before = texts(arguments@);
    push_switch(arguments, test.verbose, "-v");
    push_switch(arguments, test.quiet, "-q");
    push_valued(arguments, &test.color, "--color");
    push_valued(arguments, &test.message_format, "--message-format");
    assert(texts(arguments@) =~= before + display_arguments(*test));
}

/// Adds the other options.
fn push_misc(arguments: &mut Vec<String>, test: &Test)
    ensures
        texts(final(arguments)@) == texts(old(arguments)@) + misc_arguments(*test),
{
    let ghost before = texts(arguments@);
    let jobs = match test.jobs {
        Some(number) => Some(decimal_text(number)),
        None => None,
    };
    push_valued(arguments, &jobs, "-j");
    push_switch(arguments, test.future_incompat_report, "--future-incompat-report");
    assert(texts(arguments@) =~= before + misc_arguments(*test));
}

/// Adds what is for the tests themselves.
fn push_trailing(arguments: &mut Vec<String>, trailing: &Vec<String>)
    ensures
        texts(final(arguments)@) == texts(old(arguments)@) + texts(trailing@),
{
    let ghost before = texts(arguments@);
    let mut i: usize = 0;
    assert(texts(arguments@) =~= before + texts(trailing@).take(0));
    while i < trailing.len()
        invariant
            i <= trailing.len(),
            texts(arguments@) == before + texts(trailing@).take(i as int),
        decreases trailing.len() - i,
    {
        push_argument(arguments, trailing[i].as_str());
        assert(before + texts(trailing@).take(i as int) + seq![trailing@[i as int]@] =~= before
            + texts(trailing@).take(i as int + 1));
        i += 1;
    }
    assert(texts(trailing@).take(trailing.len() as int) =~= texts(trailing@));
}

/// The command line of `frc test`; `cargo` is what the variable `CARGO`
/// holds, if it is set.
pub fn test_invocation(
    test: &Test,
    config: &ProjectConfig,
    cargo: Option<String>,
) -> (invocation: Invocation)
    ensures
        invocation.program@ == program_name(optional_text(cargo)),
        invocation.team_number@ == decimal_digits(config.team.0 as nat),
        texts(invocation.arguments@) == test_arguments(*test, *config),
{
    let mut arguments: Vec<String> = Vec::new();
    assert(texts(arguments@) =~= Seq::empty());
    push_usage(&mut arguments, test, config);
    assert(texts(arguments@) =~= usage_arguments(*test, *config));
    push_run(&mut arguments, test);
    push_common(&mut arguments, test);
    push_package(&mut arguments, test);
    push_target(&mut arguments, test);
    push_feature(&mut arguments, test);
    push_compilation(&mut arguments, test);
    push_manifest(&mut arguments, test);
    push_display(&mut arguments, test);
    push_misc(&mut arguments, test);
    push_trailing(&mut arguments, &test.trailing);
    Invocation {
        program: program(cargo),
        arguments,
        team_number: decimal_text(config.team.0 as u64),
    }
}

/// What `frc test` comes to, given how the run of cargo has ended.
pub fn test_outcome(run: Run) -> (outcome: Result<(), TestSubcommandError>)
    ensures
        outcome == test_result(run),
{
    match run {
        Run::NotSpawned => Err(TestSubcommandError::FailedToSpawnCargoTest),
        Run::NotAwaited => Err(TestSubcommandError::FailedToWaitForCargoTest),
        Run::Exited { success, code } => {
            if success {
                Ok(())
            } else {
                Err(TestSubcommandError::FailedCargoTest { code })
            }
        },
    }
}

} // verus!
