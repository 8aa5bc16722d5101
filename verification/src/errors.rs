//! The failures of the commands, and the one that collects them.

use core::convert::Infallible;
use vstd::prelude::*;
use vstd::std_specs::convert::FromSpecImpl;

verus! {

/// The failure that `cargo metadata` reports.
#[verifier::external_type_specification]
#[verifier::external_body]
pub struct ExMetadataError(cargo_metadata::Error);

/// Why `frc check` failed.
#[derive(Debug, Clone, Copy)]
pub enum CheckSubcommandError {
    FailedToSpawnCargoCheck,
    FailedToWaitForCargoCheck,
    FailedCargoCheck { code: Option<i32> },
}

/// Why `frc deploy` failed. The command knows no failure yet: the one variant
/// holds a value that cannot be made, so the type has none.
#[derive(Debug, Clone, Copy)]
pub enum DeploySubcommandError {
    Never(Infallible),
}

/// Why `frc sim` failed. The command knows no failure yet: the one variant
/// holds a value that cannot be made, so the type has none.
#[derive(Debug, Clone, Copy)]
pub enum SimSubcommandError {
    Never(Infallible),
}

/// Why `frc test` failed.
#[derive(Debug, Clone, Copy)]
pub enum TestSubcommandError {
    FailedToSpawnCargoTest,
    FailedToWaitForCargoTest,
    FailedCargoTest { code: Option<i32> },
}

/// Why `frc tui` failed. The command knows no failure yet: the one variant
/// holds a value that cannot be made, so the type has none.
#[derive(Debug, Clone, Copy)]
pub enum TuiSubcommandError {
    Never(Infallible),
}

/// Why `frc webservice` failed. The command knows no failure yet: the one variant
/// holds a value that cannot be made, so the type has none.
#[derive(Debug, Clone, Copy)]
pub enum WebserviceSubcommandError {
    Never(Infallible),
}

/// Why `frc set-team-number` failed. The command knows no failure yet: the one variant
/// holds a value that cannot be made, so the type has none.
#[derive(Debug, Clone, Copy)]
pub enum SetTeamNumberSubcommandError {
    Never(Infallible),
}

/// Why the settings of a project could not be read from its manifest. An
/// attribute is named as it stands under `[package.metadata.frc]`; the
/// second text of `ParseAttribute` says what the attribute should be.
#[derive(Debug, Clone, Copy)]
pub enum ProjectConfigError {
    CargoMetadata,
    MissingRootPackage,
    MissingFrcMetadata,
    MissingAttribute(&'static str),
    ParseAttribute(&'static str, &'static str),
}

/// Any failure of a run, by the command that it came from.
#[derive(Debug, Clone, Copy)]
pub enum RuntimeError {
    Check(CheckSubcommandError),
    Deploy(DeploySubcommandError),
    Sim(SimSubcommandError),
    Test(TestSubcommandError),
    Tui(TuiSubcommandError),
    Webservice(WebserviceSubcommandError),
    SetTeamNumber(SetTeamNumberSubcommandError),
    Config(ProjectConfigError),
}

impl From<cargo_metadata::Error> for ProjectConfigError {
    fn from(error: cargo_metadata::Error) -> (failure: ProjectConfigError) {
        ProjectConfigError::CargoMetadata
    }
}

impl FromSpecImpl<cargo_metadata::Error> for ProjectConfigError {
    open spec fn obeys_from_spec() -> bool {
        true
    }

    open spec fn from_spec(error: cargo_metadata::Error) -> ProjectConfigError {
        ProjectConfigError::CargoMetadata
    }
}

impl From<CheckSubcommandError> for RuntimeError {
    fn from(error: CheckSubcommandError) -> (failure: RuntimeError) {
        RuntimeError::Check(error)
    }
}

impl FromSpecImpl<CheckSubcommandError> for RuntimeError {
    open spec fn obeys_from_spec() -> bool {
        true
    }

    open spec fn from_spec(error: CheckSubcommandError) -> RuntimeError {
        RuntimeError::Check(error)
    }
}

impl From<DeploySubcommandError> for RuntimeError {
    fn from(error: DeploySubcommandError) -> (failure: RuntimeError) {
        RuntimeError::Deploy(error)
    }
}

impl FromSpecImpl<DeploySubcommandError> for RuntimeError {
    open spec fn obeys_from_spec() -> bool {
        true
    }

    open spec fn from_spec(error: DeploySubcommandError) -> RuntimeError {
        RuntimeError::Deploy(error)
    }
}

impl From<SimSubcommandError> for RuntimeError {
    fn from(error: SimSubcommandError) -> (failure: RuntimeError) {
        RuntimeError::Sim(error)
    }
}

impl FromSpecImpl<SimSubcommandError> for RuntimeError {
    open spec fn obeys_from_spec() -> bool {
        true
    }

    open spec fn from_spec(error: SimSubcommandError) -> RuntimeError {
        RuntimeError::Sim(error)
    }
}

impl From<TestSubcommandError> for RuntimeError {
    fn from(error: TestSubcommandError) -> (failure: RuntimeError) {
        RuntimeError::Test(error)
    }
}

impl FromSpecImpl<TestSubcommandError> for RuntimeError {
    open spec fn obeys_from_spec() -> bool {
        true
    }

    open spec fn from_spec(error: TestSubcommandError) -> RuntimeError {
        RuntimeError::Test(error)
    }
}

impl From<TuiSubcommandError> for RuntimeError {
    fn from(error: TuiSubcommandError) -> (failure: RuntimeError) {
        RuntimeError::Tui(error)
    }
}

impl FromSpecImpl<TuiSubcommandError> for RuntimeError {
    open spec fn obeys_from_spec() -> bool {
        true
    }

    open spec fn from_spec(error: TuiSubcommandError) -> RuntimeError {
        RuntimeError::Tui(error)
    }
}

impl From<WebserviceSubcommandError> for RuntimeError {
    fn from(error: WebserviceSubcommandError) -> (failure: RuntimeError) {
        RuntimeError::Webservice(error)
    }
}

impl FromSpecImpl<WebserviceSubcommandError> for RuntimeError {
    open spec fn obeys_from_spec() -> bool {
        true
    }

    open spec fn from_spec(error: WebserviceSubcommandError) -> RuntimeError {
        RuntimeError::Webservice(error)
    }
}

impl From<SetTeamNumberSubcommandError> for RuntimeError {
    fn from(error: SetTeamNumberSubcommandError) -> (failure: RuntimeError) {
        RuntimeError::SetTeamNumber(error)
    }
}

impl FromSpecImpl<SetTeamNumberSubcommandError> for RuntimeError {
    open spec fn obeys_from_spec() -> bool {
        true
    }

    open spec fn from_spec(error: SetTeamNumberSubcommandError) -> RuntimeError {
        RuntimeError::SetTeamNumber(error)
    }
}

impl From<ProjectConfigError> for RuntimeError {
    fn from(error: ProjectConfigError) -> (failure: RuntimeError) {
        RuntimeError::Config(error)
    }
}

impl FromSpecImpl<ProjectConfigError> for RuntimeError {
    open spec fn obeys_from_spec() -> bool {
        true
    }

    open spec fn from_spec(error: ProjectConfigError) -> RuntimeError {
        RuntimeError::Config(error)
    }
}

} // verus!
