//! The one failure that reaches the caller, with its message.

use crate::config::ConfigError;
use crate::provision::ProvisionError;
use crate::pump::WriteError;
use crate::relay::{AttachError, RelayError};
use vstd::prelude::*;
use vstd::string::*;

verus! {

/// What is said when the home directory is not known.
pub const HOME_NOT_FOUND: &'static str = "Couldn't find the home directory";

/// What is said when no profile stands under the name that was asked for.
pub const PROFILE_NOT_FOUND: &'static str = "The profile does not exist";

/// What is said when the exec session started without attached streams.
pub const NOT_ATTACHED: &'static str = "Couldn't attach to the container";

/// What is said when the terminal could not be taken into raw mode.
pub const TERMINAL_UNAVAILABLE: &'static str = "Couldn't take control of the terminal";

/// Whatever went wrong, in one value.
#[derive(Debug, PartialEq, Eq)]
pub enum Failure {
    /// No configuration could be had.
    Config(ConfigError),
    /// No profile stands under the name that was asked for.
    ProfileNotFound,
    /// The environment could not be provisioned.
    Provision(ProvisionError),
    /// The session relay failed.
    Relay(RelayError),
}

impl Failure {
    /// The message of this failure. A cause that the control plane or the
    /// operating system reported is passed on as it came; the failures that
    /// arise here have messages of their own.
    pub open spec fn text(self) -> Seq<char> {
        match self {
            Failure::Config(ConfigError::HomeNotFound) => HOME_NOT_FOUND@,
            Failure::Config(ConfigError::Read(cause)) => cause@,
            Failure::Config(ConfigError::Parse(cause)) => cause@,
            Failure::Config(ConfigError::Render(cause)) => cause@,
            Failure::Config(ConfigError::Write(cause)) => cause@,
            Failure::ProfileNotFound => PROFILE_NOT_FOUND@,
            Failure::Provision(ProvisionError::ImagePull(cause)) => cause@,
            Failure::Provision(ProvisionError::Create(cause)) => cause@,
            Failure::Provision(ProvisionError::Start(cause)) => cause@,
            Failure::Relay(RelayError::Attach(AttachError::ExecCreate(cause))) => cause@,
            Failure::Relay(RelayError::Attach(AttachError::ExecStart(cause))) => cause@,
            Failure::Relay(RelayError::Attach(AttachError::Detached)) => NOT_ATTACHED@,
            Failure::Relay(RelayError::TerminalUnavailable) => TERMINAL_UNAVAILABLE@,
            Failure::Relay(RelayError::Write(WriteError { cause })) => cause@,
        }
    }

    /// The message of this failure.
    pub fn message(&self) -> (message: String)
        ensures
            message@ == self.text(),
    {
        match self {
            Failure::Config(ConfigError::HomeNotFound) => String::from_str(HOME_NOT_FOUND),
            Failure::Config(ConfigError::Read(cause)) => cause.clone(),
            Failure::Config(ConfigError::Parse(cause)) => cause.clone(),
            Failure::Config(ConfigError::Render(cause)) => cause.clone(),
            Failure::Config(ConfigError::Write(cause)) => cause.clone(),
            Failure::ProfileNotFound => String::from_str(PROFILE_NOT_FOUND),
            Failure::Provision(ProvisionError::ImagePull(cause)) => cause.clone(),
            Failure::Provision(ProvisionError::Create(cause)) => cause.clone(),
            Failure::Provision(ProvisionError::Start(cause)) => cause.clone(),
            Failure::Relay(RelayError::Attach(AttachError::ExecCreate(cause))) => cause.clone(),
            Failure::Relay(RelayError::Attach(AttachError::ExecStart(cause))) => cause.clone(),
            Failure::Relay(RelayError::Attach(AttachError::Detached)) => String::from_str(
                NOT_ATTACHED,
            ),
            Failure::Relay(RelayError::TerminalUnavailable) => String::from_str(
                TERMINAL_UNAVAILABLE,
            ),
            Failure::Relay(RelayError::Write(error)) => error.cause.clone(),
        }
    }
}

} // verus!
