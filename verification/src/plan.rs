//! What the shell is asked to do at each stage of a start.

use vstd::prelude::*;
use crate::command::install_command;
use crate::command::install_line;
use crate::command::worker_command;
use crate::command::worker_line;
use crate::command::CommandLine;
use crate::command::Platform;
use crate::paths::Layout;
use crate::supervisor::StartStage;

verus! {

/// One request to the shell. Each is answered by the start event of the
/// same kind.
#[derive(Debug, Clone, PartialEq, Eq)]
pub enum StageRequest {
    /// Tell whether `path` exists.
    Probe { path: String },
    /// Read the configuration stored at `path`.
    ReadConfig { path: String },
    /// Run `command` in directory `dir` and wait for it to end, keeping
    /// what it prints.
    Install { command: CommandLine, dir: String },
    /// Copy the file `from` to `to`, byte for byte.
    CopyFile { from: String, to: String },
    /// Launch `command` in directory `dir`, with its output streams
    /// suppressed where `discard_output` is set, and tell its process id and
    /// the time.
    Spawn { command: CommandLine, dir: String, discard_output: bool },
}

impl StageRequest {
    /// The request is the one that `stage` makes in `layout` on `platform`.
    pub open spec fn serves(self, stage: StartStage, layout: Layout, platform: Platform) -> bool {
        match stage {
            StartStage::EntryPoint => self matches StageRequest::Probe { path } && path@
                == layout.entry_point@,
            StartStage::ConfigFile => self matches StageRequest::Probe { path } && path@
                == layout.config_file@,
            StartStage::ReadConfig => self matches StageRequest::ReadConfig { path } && path@
                == layout.config_file@,
            StartStage::DependencyDir => self matches StageRequest::Probe { path } && path@
                == layout.modules_dir@,
            StartStage::DependencyMarker => self matches StageRequest::Probe { path } && path@
                == layout.modules_marker@,
            StartStage::Install => self matches StageRequest::Install { command, dir }
                && command@ == install_line(platform, true) && dir@ == layout.bot_dir@,
            StartStage::Sync => self matches StageRequest::CopyFile { from, to } && from@
                == layout.config_file@ && to@ == layout.worker_config@,
            StartStage::Spawn => self matches StageRequest::Spawn {
                command,
                dir,
                discard_output,
            } && command@ == worker_line(platform) && dir@ == layout.bot_dir@ && discard_output,
        }
    }
}

/// The request that `stage` makes of the shell. The installer is run for
/// production only; the configuration is copied from the authoritative file
/// to the worker's; installer and worker run in the worker's directory, the
/// worker with its output suppressed.
pub fn stage_request(stage: StartStage, layout: &Layout, platform: Platform) -> (r: StageRequest)
    ensures
        r.serves(stage, *layout, platform),
{
    match stage {
        StartStage::EntryPoint => StageRequest::Probe { path: layout.entry_point.clone() },
        StartStage::ConfigFile => StageRequest::Probe { path: layout.config_file.clone() },
        StartStage::ReadConfig => StageRequest::ReadConfig { path: layout.config_file.clone() },
        StartStage::DependencyDir => StageRequest::Probe { path: layout.modules_dir.clone() },
        StartStage::DependencyMarker => StageRequest::Probe {
            path: layout.modules_marker.clone(),
        },
        StartStage::Install => StageRequest::Install {
            command: install_command(platform, true),
            dir: layout.bot_dir.clone(),
        },
        StartStage::Sync => StageRequest::CopyFile {
            from: layout.config_file.clone(),
            to: layout.worker_config.clone(),
        },
        StartStage::Spawn => StageRequest::Spawn {
            command: worker_command(platform),
            dir: layout.bot_dir.clone(),
            discard_output: true,
        },
    }
}

} // verus!
