//! What is ready and what is missing before the worker can be started, the
//! installation of its dependencies, and the removal of stored data.

use vstd::prelude::*;
use vstd::string::StringExecFns;
use crate::command::CommandOutcome;
use crate::config::BotConfig;
use crate::paths::Layout;
use crate::supervisor::Reply;
use crate::text::concat2;
use crate::text::join;
use crate::text::join_strings;
use crate::text::texts;
use crate::text::trim_text;
use crate::text::trimmed;

verus! {

/// A result whose value and error are both texts, as character sequences.
pub open spec fn result_text(r: Result<String, String>) -> Result<Seq<char>, Seq<char>> {
    match r {
        Ok(t) => Ok(t@),
        Err(e) => Err(e@),
    }
}

// ---------------------------------------------------------------------
// The worker's runtime
// ---------------------------------------------------------------------

/// Whether the runtime answered the question for its version.
pub open spec fn runtime_found(outcome: CommandOutcome) -> bool {
    outcome matches CommandOutcome::Finished { success, .. } && success
}

/// The runtime's version: what it printed, without surrounding white
/// space; empty where it did not answer.
pub open spec fn runtime_version_text(outcome: CommandOutcome) -> Seq<char> {
    match outcome {
        CommandOutcome::Finished { success, stdout, stderr } => if success {
            trimmed(stdout@)
        } else {
            Seq::empty()
        },
        CommandOutcome::NotRun { .. } => Seq::empty(),
    }
}

/// What the check for the runtime reports, given how asking it for its
/// version ended: the version, or that the runtime was not found (it ran
/// and failed) or is not installed (it could not be run).
pub open spec fn runtime_check(outcome: CommandOutcome) -> Result<Seq<char>, Seq<char>> {
    match outcome {
        CommandOutcome::Finished { success, .. } => if success {
            Ok(runtime_version_text(outcome))
        } else {
            Err("Node.js not found"@)
        },
        CommandOutcome::NotRun { .. } => Err(
            "Node.js not installed. Please install Node.js from https://nodejs.org"@,
        ),
    }
}

/// Reports the runtime's version, or why there is none.
pub fn check_node_installed(outcome: &CommandOutcome) -> (r: Result<String, String>)
    ensures
        result_text(r) == runtime_check(*outcome),
{
    match outcome {
        CommandOutcome::Finished { success, stdout, stderr } => {
            if *success {
                Ok(trim_text(stdout.as_str()))
            } else {
                Err(String::from_str("Node.js not found"))
            }
        },
        CommandOutcome::NotRun { reason } => Err(
            String::from_str(
                "Node.js not installed. Please install Node.js from https://nodejs.org",
            ),
        ),
    }
}

// ---------------------------------------------------------------------
// Setup status
// ---------------------------------------------------------------------

/// What the shell found on looking at the installation.
#[derive(Debug, Clone, PartialEq, Eq)]
pub struct SetupProbe {
    /// How asking the runtime for its version ended.
    pub runtime: CommandOutcome,
    /// Whether the worker's entry point exists.
    pub entry_point: bool,
    /// Whether the worker's package description exists.
    pub package_file: bool,
    /// Whether the worker's dependency directory exists.
    pub modules_dir: bool,
    /// Whether the marker package exists in the dependency directory.
    pub modules_marker: bool,
    /// Whether the authoritative configuration exists.
    pub config_file: bool,
    /// The authoritative configuration, where it exists and could be read.
    pub config: Option<BotConfig>,
}

/// What is ready and what is missing.
#[derive(Debug, Clone, PartialEq, Eq)]
pub struct SetupStatus {
    pub node_installed: bool,
    pub node_version: String,
    pub bot_files_exist: bool,
    pub dependencies_installed: bool,
    pub config_exists: bool,
    pub token_set: bool,
    pub ready: bool,
}

impl SetupStatus {
    /// The status is the one that `probe` gives rise to: the worker's files
    /// exist if entry point and package description do; its dependencies are
    /// installed if their directory and the marker package exist; a token
    /// counts only from a configuration file that exists and could be read;
    /// and the worker is ready to start once the runtime, the worker's files
    /// and a token are there.
    pub open spec fn reflects(self, probe: SetupProbe) -> bool {
        &&& self.node_installed == runtime_found(probe.runtime)
        &&& self.node_version@ == runtime_version_text(probe.runtime)
        &&& self.bot_files_exist == (probe.entry_point && probe.package_file)
        &&& self.dependencies_installed == (probe.modules_dir && probe.modules_marker)
        &&& self.config_exists == probe.config_file
        &&& self.token_set == (probe.config_file && probe.config is Some
            && probe.config->0.token_set())
        &&& self.ready == (self.node_installed && self.bot_files_exist && self.token_set)
    }
}

/// Sums up what is ready and what is missing.
pub fn check_setup_status(probe: &SetupProbe) -> (status: SetupStatus)
    ensures
        status.reflects(*probe),
{
    let (node_installed, node_version) = match &probe.runtime {
        CommandOutcome::Finished { success, stdout, stderr } => {
            if *success {
                (true, trim_text(stdout.as_str()))
            } else {
                (false, String::new())
            }
        },
        CommandOutcome::NotRun { reason } => (false, String::new()),
    };
    let bot_files_exist = probe.entry_point && probe.package_file;
    let dependencies_installed = probe.modules_dir && probe.modules_marker;
    let token_set = probe.config_file && match &probe.config {
        Some(c) => c.has_token(),
        None => false,
    };
    SetupStatus {
        node_installed,
        node_version,
        bot_files_exist,
        dependencies_installed,
        config_exists: probe.config_file,
        token_set,
        ready: node_installed && bot_files_exist && token_set,
    }
}

// ---------------------------------------------------------------------
// Installing dependencies on request
// ---------------------------------------------------------------------

/// Whether the installer may be run: only where the worker's package
/// description exists.
pub open spec fn install_admission(package_found: bool) -> Result<(), Seq<char>> {
    if package_found {
        Ok(())
    } else {
        Err("Bot files not found"@)
    }
}

/// Admits or refuses an installation.
pub fn admit_install(package_found: bool) -> (r: Result<(), String>)
    ensures
        match r {
            Ok(_) => install_admission(package_found) is Ok,
            Err(e) => install_admission(package_found) == Err::<(), Seq<char>>(e@),
        },
{
    if package_found {
        Ok(())
    } else {
        Err(String::from_str("Bot files not found"))
    }
}

/// What an installation reports, given how the installer ended: success
/// for exit code zero; else its error output; or why it could not be run.
pub open spec fn install_report(outcome: CommandOutcome) -> Result<Seq<char>, Seq<char>> {
    match outcome {
        CommandOutcome::Finished { success, stdout, stderr } => if success {
            Ok(Reply::DependenciesInstalled.message_text())
        } else {
            Err("npm install failed: "@ + stderr@)
        },
        CommandOutcome::NotRun { reason } => Err("Failed to run npm install: "@ + reason@),
    }
}

/// Reports on an installation.
pub fn install_bot_dependencies(outcome: &CommandOutcome) -> (r: Result<String, String>)
    ensures
        result_text(r) == install_report(*outcome),
{
    match outcome {
        CommandOutcome::Finished { success, stdout, stderr } => {
            if *success {
                Ok(Reply::DependenciesInstalled.message())
            } else {
                Err(concat2("npm install failed: ", stderr.as_str()))
            }
        },
        CommandOutcome::NotRun { reason } => Err(
            concat2("Failed to run npm install: ", reason.as_str()),
        ),
    }
}

// ---------------------------------------------------------------------
// Removing stored data
// ---------------------------------------------------------------------

/// A piece of stored data that can be removed.
#[derive(Debug, Clone, Copy, PartialEq, Eq, Structural)]
pub enum DataItem {
    /// The authoritative configuration.
    AppConfig,
    /// The configuration as the worker reads it.
    WorkerConfig,
    /// The worker's settings.
    Settings,
    /// The worker's log.
    Logs,
}

impl DataItem {
    /// The name under which the item is reported.
    pub open spec fn label_text(self) -> Seq<char> {
        match self {
            DataItem::AppConfig => "Dokumenten-Config"@,
            DataItem::WorkerConfig => "Bot-Config"@,
            DataItem::Settings => "Settings"@,
            DataItem::Logs => "Logs"@,
        }
    }

    /// The file that holds the item in `layout`.
    pub open spec fn file_of(self, layout: Layout) -> String {
        match self {
            DataItem::AppConfig => layout.config_file,
            DataItem::WorkerConfig => layout.worker_config,
            DataItem::Settings => layout.settings_file,
            DataItem::Logs => layout.log_file,
        }
    }

    /// The name under which the item is reported.
    pub fn label(&self) -> (r: String)
        ensures
            r@ == self.label_text(),
    {
        match self {
            DataItem::AppConfig => String::from_str("Dokumenten-Config"),
            DataItem::WorkerConfig => String::from_str("Bot-Config"),
            DataItem::Settings => String::from_str("Settings"),
            DataItem::Logs => String::from_str("Logs"),
        }
    }

    /// The file that holds the item in `layout`.
    pub fn file(&self, layout: &Layout) -> (r: String)
        ensures
            r@ == self.file_of(*layout)@,
    {
        match self {
            DataItem::AppConfig => layout.config_file.clone(),
            DataItem::WorkerConfig => layout.worker_config.clone(),
            DataItem::Settings => layout.settings_file.clone(),
            DataItem::Logs => layout.log_file.clone(),
        }
    }
}

/// The items in the order in which they are removed and reported.
pub open spec fn removal_order() -> Seq<DataItem> {
    seq![DataItem::AppConfig, DataItem::WorkerConfig, DataItem::Settings, DataItem::Logs]
}

/// The items that can be removed, in the order in which they are.
pub fn data_items() -> (items: Vec<DataItem>)
    ensures
        items@ == removal_order(),
{
    let mut items: Vec<DataItem> = Vec::new();
    items.push(DataItem::AppConfig);
    items.push(DataItem::WorkerConfig);
    items.push(DataItem::Settings);
    items.push(DataItem::Logs);
    assert(items@ =~= removal_order());
    items
}

/// The names of `items`, in order.
pub open spec fn labels(items: Seq<DataItem>) -> Seq<Seq<char>> {
    Seq::new(items.len(), |i: int| items[i].label_text())
}

/// What a removal reports: the names of what was removed, separated by
/// commas, or that nothing was there to remove.
pub open spec fn removal_report(removed: Seq<DataItem>) -> Seq<char> {
    if removed.len() == 0 {
        "No data to delete found"@
    } else {
        "Deleted: "@ + join(labels(removed), ", "@)
    }
}

/// Reports on a removal, given the items that were there and were removed.
pub fn clear_all_data(removed: &Vec<DataItem>) -> (r: String)
    ensures
        r@ == removal_report(removed@),
{
    if removed.len() == 0 {
        return String::from_str("No data to delete found");
    }
    let mut names: Vec<String> = Vec::new();
    let mut i: usize = 0;
    while i < removed.len()
        invariant
            i <= removed@.len(),
            names@.len() == i,
            forall|k: int| 0 <= k < i ==> names@[k]@ == removed@[k].label_text(),
        decreases removed.len() - i,
    {
        names.push(removed[i].label());
        i += 1;
    }
    assert(texts(names@) =~= labels(removed@));
    let list = join_strings(&names, ", ");
    concat2("Deleted: ", list.as_str())
}

} // verus!
