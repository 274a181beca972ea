use vstd::prelude::*;

verus! {

/// How much the process should print, derived from the repeated
/// `--quiet` flag: nothing suppressed, warnings and errors only,
/// or fully silent.
#[derive(Clone, Copy, Debug, PartialEq, Eq, Structural)]
pub enum Verbosity {
    Debug,
    Warn,
    Off,
}

/// Maps the count of `--quiet` flags to the logging verbosity:
/// zero keeps everything, one keeps warnings and errors, two or
/// more silences all output.
pub fn log_level_for(quiet: u8) -> (r: Verbosity)
    ensures
        quiet == 0 ==> r == Verbosity::Debug,
        quiet == 1 ==> r == Verbosity::Warn,
        quiet >= 2 ==> r == Verbosity::Off,
{
    if quiet == 0 {
        Verbosity::Debug
    } else if quiet == 1 {
        Verbosity::Warn
    } else {
        Verbosity::Off
    }
}

#[verifier::external_type_specification]
#[verifier::external_body]
pub struct ExPathBuf(std::path::PathBuf);

/// Relies on std::path::Path::exists: whether the path points at an
/// existing entity. The answer comes from the file system, so nothing
/// is promised of it.
#[verifier::external_body]
fn path_exists(pathbuf: &std::path::PathBuf) -> bool {
    pathbuf.exists()
}

/// Relies on std::path::Path::is_file: whether the path points at a
/// regular file. The answer comes from the file system, so nothing is
/// promised of it.
#[verifier::external_body]
fn path_is_file(pathbuf: &std::path::PathBuf) -> bool {
    pathbuf.is_file()
}

/// Whether the configuration path points at an existing regular file.
/// Both probes ask the file system, so no more can be promised than
/// that the path was probed; a configuration is read only when this
/// holds.
pub fn validate_path(pathbuf: &std::path::PathBuf) -> bool {
    path_exists(pathbuf) && path_is_file(pathbuf)
}

/// What startup does once the flags are parsed and the configuration
/// path has been probed: informational early exits succeed without
/// running anything; only an existing configuration file is read.
#[derive(Clone, Copy, Debug, PartialEq, Eq, Structural)]
pub enum StartupStep {
    /// Print the resolved configuration path and exit successfully,
    /// warning when no file is there.
    PrintPath { warn_missing: bool },
    /// The configuration file does not exist: report it and exit.
    MissingConfig,
    /// Read the configuration file and run.
    ReadConfig,
}

/// Decides the startup step from the print-path flag and the probed
/// configuration path.
pub fn startup_plan(print_config_path: bool, valid_path: bool) -> (r: StartupStep)
    ensures
        print_config_path ==> r == (StartupStep::PrintPath { warn_missing: !valid_path }),
        !print_config_path && !valid_path ==> r == StartupStep::MissingConfig,
        !print_config_path && valid_path ==> r == StartupStep::ReadConfig,
{
    if print_config_path {
        StartupStep::PrintPath { warn_missing: !valid_path }
    } else if !valid_path {
        StartupStep::MissingConfig
    } else {
        StartupStep::ReadConfig
    }
}

} // verus!
