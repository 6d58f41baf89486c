//! What the program is asked to do, and what that comes to.

use crate::config::MdkConfig;
use crate::failure::Failure;
use crate::provision::{create_container, ProvisionPhase, Provisioner};
use crate::relay::{connect, RelayPhase, SessionRelay};
use vstd::prelude::*;

verus! {

/// What the user asks for on the command line.
#[derive(Debug, PartialEq, Eq)]
pub enum Command {
    /// A new environment under `name`, made from the profile named
    /// `profile`.
    New { profile: String, name: String },
    /// An interactive session in the environment under `name`.
    Connect { name: String },
    /// The configuration, shown as text.
    Cfg,
}

/// What a command comes to: the work that is left for the caller to drive.
#[derive(Debug)]
pub enum Task {
    /// Run this session relay to its end.
    Connect(SessionRelay),
    /// Run this provisioner to its end.
    Provision(Provisioner),
    /// Show the configuration.
    ShowConfig,
}

/// Whether `task` is what `command` comes to under a configuration that
/// holds `profiles`.
pub open spec fn carries_out(
    task: Task,
    command: Command,
    profiles: Map<Seq<char>, crate::config::ProfileView>,
) -> bool {
    match command {
        Command::Connect { name } => {
            &&& task matches Task::Connect(relay)
            &&& relay@.target@ == name@
            &&& relay@.phase == RelayPhase::Created
        },
        Command::New { profile, name } => {
            &&& profiles.contains_key(profile@)
            &&& task matches Task::Provision(provisioner)
            &&& provisioner@.name@ == name@
            &&& provisioner@.profile@ == profiles[profile@]
            &&& provisioner@.phase == ProvisionPhase::Requested
        },
        Command::Cfg => task is ShowConfig,
    }
}

/// Turns `command` into the task that carries it out. Nothing is asked of
/// the control plane here: the task that is returned has not begun.
///
/// The one command that can fail is `New`: where the configuration holds no
/// profile under the name given, the failure is `ProfileNotFound` and no
/// task comes about.
pub fn run(cfg: &MdkConfig, command: &Command) -> (outcome: Result<Task, Failure>)
    ensures
        match outcome {
            Ok(task) => carries_out(task, *command, cfg@.profiles),
            Err(failure) => {
                &&& failure == Failure::ProfileNotFound
                &&& command matches Command::New { profile, .. }
                &&& !cfg@.profiles.contains_key(profile@)
            },
        },
{
    match command {
        Command::Connect { name } => Ok(Task::Connect(connect(name.as_str()))),
        Command::New { profile, name } => {
            match cfg.get(profile.as_str()) {
                Some(found) => Ok(Task::Provision(create_container(name.as_str(), found))),
                None => Err(Failure::ProfileNotFound),
            }
        },
        Command::Cfg => Ok(Task::ShowConfig),
    }
}

} // verus!
