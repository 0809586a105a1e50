//! The failures a command can report, and the text shown for each.

use vstd::prelude::*;
use vstd::string::StringExecFns;
use crate::text::concat2;
use crate::text::concat3;

verus! {

/// Why a command was not carried out.
#[derive(Debug, Clone, PartialEq, Eq)]
pub enum SupervisorError {
    /// A worker is already tracked.
    AlreadyRunning,
    /// No worker is tracked.
    NotRunning,
    /// The worker's entry point is not on disk.
    WorkerFilesMissing,
    /// The authoritative configuration has never been saved.
    ConfigNotSaved,
    /// The authoritative configuration holds an empty token.
    TokenMissing,
    /// Installing the worker's dependencies failed. `detail` is the
    /// installer's error output when it `ran`, and otherwise the reason it
    /// could not be run at all.
    DependencyInstallFailed { detail: String, ran: bool },
    /// Copying the configuration to the worker failed.
    ConfigSyncFailed(String),
    /// The operating system could not launch the worker.
    SpawnFailed(String),
    /// The worker's control API did not answer. `ping` tells the quick
    /// reachability probe from the other calls.
    ApiUnreachable { ping: bool },
    /// The worker answered the data query with a failure status.
    WorkerNotReady,
    /// Any other filesystem or operating-system failure.
    IoFailure(String),
}

impl SupervisorError {
    /// The text of the message for this failure.
    pub open spec fn message_text(self) -> Seq<char> {
        match self {
            SupervisorError::AlreadyRunning => "Bot is already running"@,
            SupervisorError::NotRunning => "Bot is not running"@,
            SupervisorError::WorkerFilesMissing =>
                "Bot files not found. Please reinstall the application."@,
            SupervisorError::ConfigNotSaved => "Please save the configuration first"@,
            SupervisorError::TokenMissing => "Please enter a Bot Token first"@,
            SupervisorError::DependencyInstallFailed { detail, ran } => if ran {
                "Failed to install dependencies: "@ + detail@
            } else {
                "Failed to run npm install: "@ + detail@ + ". Is Node.js installed?"@
            },
            SupervisorError::ConfigSyncFailed(reason) => reason@,
            SupervisorError::SpawnFailed(reason) =>
                "Error starting: "@ + reason@ + ". Is Node.js installed?"@,
            SupervisorError::ApiUnreachable { ping } => if ping {
                "Bot not reachable"@
            } else {
                "Bot API not reachable"@
            },
            SupervisorError::WorkerNotReady => "Bot not ready"@,
            SupervisorError::IoFailure(reason) => reason@,
        }
    }

    /// The message shown to the user for this failure.
    pub fn message(&self) -> (r: String)
        ensures
            r@ == self.message_text(),
    {
        match self {
            SupervisorError::AlreadyRunning => String::from_str("Bot is already running"),
            SupervisorError::NotRunning => String::from_str("Bot is not running"),
            SupervisorError::WorkerFilesMissing => String::from_str(
                "Bot files not found. Please reinstall the application.",
            ),
            SupervisorError::ConfigNotSaved => String::from_str(
                "Please save the configuration first",
            ),
            SupervisorError::TokenMissing => String::from_str("Please enter a Bot Token first"),
            SupervisorError::DependencyInstallFailed { detail, ran } => {
                if *ran {
                    concat2("Failed to install dependencies: ", detail.as_str())
                } else {
                    concat3("Failed to run npm install: ", detail.as_str(), ". Is Node.js installed?")
                }
            },
            SupervisorError::ConfigSyncFailed(reason) => reason.clone(),
            SupervisorError::SpawnFailed(reason) => concat3(
                "Error starting: ",
                reason.as_str(),
                ". Is Node.js installed?",
            ),
            SupervisorError::ApiUnreachable { ping } => {
                if *ping {
                    String::from_str("Bot not reachable")
                } else {
                    String::from_str("Bot API not reachable")
                }
            },
            SupervisorError::WorkerNotReady => String::from_str("Bot not ready"),
            SupervisorError::IoFailure(reason) => reason.clone(),
        }
    }
}

} // verus!
