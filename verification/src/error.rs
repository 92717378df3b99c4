//! The failures a runner reports.

use mozprofile::prefreader::PrefReaderError;
use vstd::prelude::*;
use vstd::std_specs::convert::FromSpecImpl;

verus! {

/// `std::io::Error`, carried through unread.
#[verifier::external_type_specification]
#[verifier::external_body]
pub struct ExIoError(std::io::Error);

/// `mozprofile::prefreader::PrefReaderError`, carried through unread.
#[verifier::external_type_specification]
#[verifier::external_body]
pub struct ExPrefReaderError(PrefReaderError);

/// Why an operation of a runner failed.
///
/// `Io` is a failure of the operating system while spawning, killing or
/// reaping the process. The other three are failures of the configuration:
/// the profile directory could not be created, the existing preference file
/// could not be read, or the merged preferences could not be written.
#[derive(Debug)]
pub enum RunnerError {
    Io(std::io::Error),
    Profile(std::io::Error),
    PrefReader(PrefReaderError),
    PrefWriter(std::io::Error),
}

impl RunnerError {
    /// Whether the failure lies in the configuration rather than in the
    /// handling of the process.
    pub open spec fn is_configuration(&self) -> bool {
        !(self is Io)
    }

    /// Tells a configuration failure from a failure of the operating system.
    pub fn is_config(&self) -> (b: bool)
        ensures
            b == self.is_configuration(),
    {
        match self {
            RunnerError::Io(_) => false,
            RunnerError::Profile(_) => true,
            RunnerError::PrefReader(_) => true,
            RunnerError::PrefWriter(_) => true,
        }
    }
}

impl From<std::io::Error> for RunnerError {
    fn from(value: std::io::Error) -> (e: RunnerError) {
        RunnerError::Io(value)
    }
}

impl FromSpecImpl<std::io::Error> for RunnerError {
    open spec fn obeys_from_spec() -> bool {
        true
    }

    open spec fn from_spec(value: std::io::Error) -> RunnerError {
        RunnerError::Io(value)
    }
}

impl From<PrefReaderError> for RunnerError {
    fn from(value: PrefReaderError) -> (e: RunnerError) {
        RunnerError::PrefReader(value)
    }
}

impl FromSpecImpl<PrefReaderError> for RunnerError {
    open spec fn obeys_from_spec() -> bool {
        true
    }

    open spec fn from_spec(value: PrefReaderError) -> RunnerError {
        RunnerError::PrefReader(value)
    }
}

} // verus!
