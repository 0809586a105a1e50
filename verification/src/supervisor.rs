//! The lifecycle state machine of the one supervised worker.
//!
//! The supervisor tracks at most one worker: its process id and the time it
//! was started. Commands are decided here; the shell performs what a decision
//! asks for (probing files, running the installer, spawning, killing) and
//! reports each result back as an event.

use vstd::prelude::*;
use vstd::string::StringExecFns;
use crate::command::CommandOutcome;
use crate::config::BotConfig;
use crate::error::SupervisorError;
use crate::clock::format_timestamp;
use crate::clock::format_uptime;
use crate::clock::timestamp_text;
use crate::clock::uptime_text;

verus! {

/// How long a restart waits after cleanup before it starts the worker anew.
pub const RESTART_SETTLE_MILLIS: u64 = 1000;

/// How long a manual cleanup waits after the port sweep.
pub const CLEANUP_SETTLE_MILLIS: u64 = 500;

/// What the supervisor has on record: the process id of the tracked worker
/// and the time, in seconds since the epoch, at which it was started.
pub struct Tracking {
    pub pid: Option<u32>,
    pub started_at: Option<u64>,
}

impl Tracking {
    /// A process id is on record exactly when a start time is.
    pub open spec fn consistent(self) -> bool {
        self.pid is Some <==> self.started_at is Some
    }

    /// A worker is tracked.
    pub open spec fn running(self) -> bool {
        self.pid is Some
    }

    /// No worker is tracked.
    pub open spec fn idle(self) -> bool {
        self.pid is None
    }
}

/// The record of a supervisor that tracks nothing.
pub open spec fn idle_tracking() -> Tracking {
    Tracking { pid: None, started_at: None }
}

/// The record of a supervisor that tracks worker `pid`, started at `now`.
pub open spec fn running_tracking(pid: u32, now: u64) -> Tracking {
    Tracking { pid: Some(pid), started_at: Some(now) }
}

/// One act of process cleanup for the shell to perform. None of them can
/// fail as far as the supervisor is concerned: what goes wrong is discarded.
#[derive(Debug, Clone, Copy, PartialEq, Eq, Structural)]
pub enum ReaperStep {
    /// Send the terminate signal to the tracked process handle.
    SignalHandle,
    /// Force-terminate the process `pid` and all of its descendants.
    KillTree { pid: u32 },
    /// Block until the operating system confirms the tracked process exited.
    AwaitExit,
    /// Force-terminate whatever listens on the worker's control port.
    SweepPort,
    /// Wait for `millis` milliseconds.
    Pause { millis: u64 },
}

/// What a command that succeeded reports.
#[derive(Debug, Clone, Copy, PartialEq, Eq, Structural)]
pub enum Reply {
    Started,
    Restarted,
    Stopped,
    CleanedUp,
    ConfigSaved,
    StatusConfigSaved,
    LogsCleared,
    DependenciesInstalled,
}

impl Reply {
    /// The text of the message for this reply.
    pub open spec fn message_text(self) -> Seq<char> {
        match self {
            Reply::Started => "Bot started"@,
            Reply::Restarted => "Bot restarted"@,
            Reply::Stopped => "Bot stopped"@,
            Reply::CleanedUp => "Cleanup durchgeführt"@,
            Reply::ConfigSaved => "Configuration saved"@,
            Reply::StatusConfigSaved => "Status config saved"@,
            Reply::LogsCleared => "Logs cleared"@,
            Reply::DependenciesInstalled => "Dependencies installed successfully"@,
        }
    }

    /// The message shown to the user for this reply.
    pub fn message(&self) -> (r: String)
        ensures
            r@ == self.message_text(),
    {
        match self {
            Reply::Started => String::from_str("Bot started"),
            Reply::Restarted => String::from_str("Bot restarted"),
            Reply::Stopped => String::from_str("Bot stopped"),
            Reply::CleanedUp => String::from_str("Cleanup durchgeführt"),
            Reply::ConfigSaved => String::from_str("Configuration saved"),
            Reply::StatusConfigSaved => String::from_str("Status config saved"),
            Reply::LogsCleared => String::from_str("Logs cleared"),
            Reply::DependenciesInstalled => String::from_str(
                "Dependencies installed successfully",
            ),
        }
    }
}

/// The stages of starting the worker, in the order they are passed.
#[derive(Debug, Clone, Copy, PartialEq, Eq, Structural)]
pub enum StartStage {
    /// Is the worker's entry point on disk?
    EntryPoint,
    /// Is the authoritative configuration on disk?
    ConfigFile,
    /// Read the authoritative configuration.
    ReadConfig,
    /// Is the worker's dependency directory on disk?
    DependencyDir,
    /// Is the marker package inside the dependency directory on disk?
    DependencyMarker,
    /// Run the dependency installer and wait for it.
    Install,
    /// Copy the authoritative configuration to the worker.
    Sync,
    /// Launch the worker.
    Spawn,
}

impl StartStage {
    /// The position of the stage in a start; every step of a start moves to
    /// a later position.
    pub open spec fn rank(self) -> nat {
        match self {
            StartStage::EntryPoint => 0,
            StartStage::ConfigFile => 1,
            StartStage::ReadConfig => 2,
            StartStage::DependencyDir => 3,
            StartStage::DependencyMarker => 4,
            StartStage::Install => 5,
            StartStage::Sync => 6,
            StartStage::Spawn => 7,
        }
    }
}

/// A start in progress: the stage whose result is awaited, and whether the
/// start is the second half of a restart.
#[derive(Debug, Clone, Copy, PartialEq, Eq, Structural)]
pub struct StartRun {
    pub stage: StartStage,
    pub restarting: bool,
}

/// What the shell found when it did what a stage asks for.
#[derive(Debug, PartialEq, Eq)]
pub enum StartEvent {
    /// Whether the probed file or directory exists.
    Exists(bool),
    /// The authoritative configuration, or why it could not be read.
    ConfigRead(Result<BotConfig, String>),
    /// How the dependency installer ended.
    Installed(CommandOutcome),
    /// Whether the configuration was copied, or why not.
    Synced(Result<(), String>),
    /// The process id of the launched worker and the current time in seconds
    /// since the epoch, or why the launch failed.
    Spawned { outcome: Result<u32, String>, now: u64 },
}

/// Where a start stands after an event.
#[derive(Debug, PartialEq, Eq)]
pub enum Progress {
    /// The start goes on: the shell is to serve the stage of this run next.
    Continue(StartRun),
    /// The start is over, with this result.
    Finished(Result<Reply, SupervisorError>),
}

/// Whether `event` is the kind of answer that `stage` asks for.
pub open spec fn answers(stage: StartStage, event: StartEvent) -> bool {
    match stage {
        StartStage::EntryPoint | StartStage::ConfigFile | StartStage::DependencyDir
        | StartStage::DependencyMarker => event is Exists,
        StartStage::ReadConfig => event is ConfigRead,
        StartStage::Install => event is Installed,
        StartStage::Sync => event is Synced,
        StartStage::Spawn => event is Spawned,
    }
}

/// The run that follows `run` at stage `stage`.
pub open spec fn at_stage(run: StartRun, stage: StartStage) -> Progress {
    Progress::Continue(StartRun { stage, restarting: run.restarting })
}

/// The reply of a start that succeeded.
pub open spec fn success_reply(run: StartRun) -> Reply {
    if run.restarting {
        Reply::Restarted
    } else {
        Reply::Started
    }
}

/// Whether a start may begin: not while a worker is tracked.
pub open spec fn start_admission(t: Tracking) -> Result<StartRun, SupervisorError> {
    if t.running() {
        Err(SupervisorError::AlreadyRunning)
    } else {
        Ok(StartRun { stage: StartStage::EntryPoint, restarting: false })
    }
}

/// The decision taken on `event` at the stage of `run`. An event that does
/// not answer the stage decides nothing: the run stays where it is.
pub open spec fn next_progress(run: StartRun, event: StartEvent) -> Progress {
    match (run.stage, event) {
        (StartStage::EntryPoint, StartEvent::Exists(found)) => if found {
            at_stage(run, StartStage::ConfigFile)
        } else {
            Progress::Finished(Err(SupervisorError::WorkerFilesMissing))
        },
        (StartStage::ConfigFile, StartEvent::Exists(found)) => if found {
            at_stage(run, StartStage::ReadConfig)
        } else {
            Progress::Finished(Err(SupervisorError::ConfigNotSaved))
        },
        (StartStage::ReadConfig, StartEvent::ConfigRead(Ok(config))) => if config.token_set() {
            at_stage(run, StartStage::DependencyDir)
        } else {
            Progress::Finished(Err(SupervisorError::TokenMissing))
        },
        (StartStage::ReadConfig, StartEvent::ConfigRead(Err(reason))) => Progress::Finished(
            Err(SupervisorError::IoFailure(reason)),
        ),
        (StartStage::DependencyDir, StartEvent::Exists(found)) => if found {
            at_stage(run, StartStage::DependencyMarker)
        } else {
            at_stage(run, StartStage::Install)
        },
        (StartStage::DependencyMarker, StartEvent::Exists(found)) => if found {
            at_stage(run, StartStage::Sync)
        } else {
            at_stage(run, StartStage::Install)
        },
        (
            StartStage::Install,
            StartEvent::Installed(CommandOutcome::Finished { success, stdout, stderr }),
        ) => if success {
            at_stage(run, StartStage::Sync)
        } else {
            Progress::Finished(
                Err(SupervisorError::DependencyInstallFailed { detail: stderr, ran: true }),
            )
        },
        (StartStage::Install, StartEvent::Installed(CommandOutcome::NotRun { reason })) =>
            Progress::Finished(
            Err(SupervisorError::DependencyInstallFailed { detail: reason, ran: false }),
        ),
        (StartStage::Sync, StartEvent::Synced(Ok(_))) => at_stage(run, StartStage::Spawn),
        (StartStage::Sync, StartEvent::Synced(Err(reason))) => Progress::Finished(
            Err(SupervisorError::ConfigSyncFailed(reason)),
        ),
        (StartStage::Spawn, StartEvent::Spawned { outcome: Ok(_), now }) => Progress::Finished(
            Ok(success_reply(run)),
        ),
        (StartStage::Spawn, StartEvent::Spawned { outcome: Err(reason), now }) =>
            Progress::Finished(Err(SupervisorError::SpawnFailed(reason))),
        _ => Progress::Continue(run),
    }
}

/// The record after `event` at the stage of `run`: a successful launch is
/// recorded with its process id and time; anything else changes nothing.
pub open spec fn next_tracking(t: Tracking, run: StartRun, event: StartEvent) -> Tracking {
    match (run.stage, event) {
        (StartStage::Spawn, StartEvent::Spawned { outcome: Ok(pid), now }) => running_tracking(
            pid,
            now,
        ),
        _ => t,
    }
}

/// The cleanup that stopping performs: the tracked worker is signalled, its
/// process tree is killed and its exit awaited; with nothing tracked, the
/// control port is swept for a worker that runs untracked.
pub open spec fn stop_steps(t: Tracking) -> Seq<ReaperStep> {
    match t.pid {
        Some(pid) => seq![
            ReaperStep::SignalHandle,
            ReaperStep::KillTree { pid },
            ReaperStep::AwaitExit,
        ],
        None => seq![ReaperStep::SweepPort],
    }
}

/// What stopping reports: success whenever a worker was tracked.
pub open spec fn stop_reply(t: Tracking) -> Result<Reply, SupervisorError> {
    if t.running() {
        Ok(Reply::Stopped)
    } else {
        Err(SupervisorError::NotRunning)
    }
}

/// The cleanup that precedes the start phase of a restart: what stopping
/// performs, then a port sweep in any case, then the settle interval.
pub open spec fn restart_steps(t: Tracking) -> Seq<ReaperStep> {
    stop_steps(t) + seq![
        ReaperStep::SweepPort,
        ReaperStep::Pause { millis: RESTART_SETTLE_MILLIS },
    ]
}

/// The manual cleanup: a port sweep and a short wait, whatever is tracked.
pub open spec fn cleanup_steps() -> Seq<ReaperStep> {
    seq![ReaperStep::SweepPort, ReaperStep::Pause { millis: CLEANUP_SETTLE_MILLIS }]
}

/// The cleanup when the application closes: the tracked worker, if any, is
/// signalled, tree-killed and awaited, and the control port is swept.
pub open spec fn shutdown_steps(t: Tracking) -> Seq<ReaperStep> {
    match t.pid {
        Some(pid) => seq![
            ReaperStep::SignalHandle,
            ReaperStep::KillTree { pid },
            ReaperStep::AwaitExit,
            ReaperStep::SweepPort,
        ],
        None => seq![ReaperStep::SweepPort],
    }
}

/// What a non-blocking exit check on the tracked process found.
#[derive(Debug, Clone, PartialEq, Eq)]
pub enum ExitPoll {
    /// The process has exited.
    Exited,
    /// The process is still running.
    Alive,
    /// The check itself failed.
    Failed(String),
}

/// The answer to a status query.
#[derive(Debug, Clone, Copy, PartialEq, Eq, Structural)]
pub struct BotStatus {
    pub running: bool,
    pub pid: Option<u32>,
    pub uptime: Option<u64>,
}

/// Whole seconds from `started_at` to `now`; a clock that has stepped back
/// behind the start counts as no time passed.
pub open spec fn elapsed(now: u64, started_at: u64) -> u64 {
    if now >= started_at {
        (now - started_at) as u64
    } else {
        0
    }
}

/// The status reported for a supervisor that tracks nothing (any more).
pub open spec fn not_running_status() -> BotStatus {
    BotStatus { running: false, pid: None, uptime: None }
}

/// The answer to a status query on record `t`, given what the exit check
/// found and the current time. With nothing tracked the check is not
/// consulted.
pub open spec fn status_report(t: Tracking, poll: ExitPoll, now: u64) -> Result<
    BotStatus,
    SupervisorError,
> {
    match t.pid {
        None => Ok(not_running_status()),
        Some(pid) => match poll {
            ExitPoll::Exited => Ok(not_running_status()),
            ExitPoll::Alive => Ok(
                BotStatus {
                    running: true,
                    pid: Some(pid),
                    uptime: match t.started_at {
                        Some(s) => Some(elapsed(now, s)),
                        None => None,
                    },
                },
            ),
            ExitPoll::Failed(reason) => Err(SupervisorError::IoFailure(reason)),
        },
    }
}

/// The record after an exit check: a worker found to have exited is no
/// longer tracked.
pub open spec fn after_poll(t: Tracking, poll: ExitPoll) -> Tracking {
    if t.running() && poll is Exited {
        idle_tracking()
    } else {
        t
    }
}

/// The hosting figures shown to the user: whether the worker runs, for how
/// long it has, and since when.
#[derive(Debug, Clone, PartialEq, Eq)]
pub struct HostingStats {
    pub running: bool,
    pub uptime: String,
    pub uptime_seconds: u64,
    pub start_time: Option<String>,
}

/// Hosting figures with their texts as character sequences.
pub struct HostingStatsView {
    pub running: bool,
    pub uptime: Seq<char>,
    pub uptime_seconds: u64,
    pub start_time: Option<Seq<char>>,
}

impl View for HostingStats {
    type V = HostingStatsView;

    open spec fn view(&self) -> HostingStatsView {
        HostingStatsView {
            running: self.running,
            uptime: self.uptime@,
            uptime_seconds: self.uptime_seconds,
            start_time: match self.start_time {
                Some(text) => Some(text@),
                None => None,
            },
        }
    }
}

/// The hosting figures for record `t`, given what the exit check found and
/// the current time. The worker counts as running only if it is tracked and
/// the check found it alive; otherwise the uptime is zero and there is no
/// start time.
pub open spec fn hosting_report(t: Tracking, poll: ExitPoll, now: u64) -> HostingStatsView {
    let running = t.running() && poll is Alive;
    let uptime_seconds = if running && t.started_at is Some {
        elapsed(now, t.started_at->0)
    } else {
        0
    };
    HostingStatsView {
        running,
        uptime: uptime_text(uptime_seconds as nat),
        uptime_seconds,
        start_time: if running && t.started_at is Some {
            Some(timestamp_text(t.started_at->0 as nat))
        } else {
            None
        },
    }
}

/// The supervisor of the single worker slot.
pub struct Supervisor {
    pid: Option<u32>,
    started_at: Option<u64>,
}

impl View for Supervisor {
    type V = Tracking;

    closed spec fn view(&self) -> Tracking {
        Tracking { pid: self.pid, started_at: self.started_at }
    }
}

impl Supervisor {
    #[verifier::type_invariant]
    spec fn well_formed(self) -> bool {
        self.pid is Some <==> self.started_at is Some
    }

    /// A supervisor that tracks nothing.
    pub fn new() -> (s: Supervisor)
        ensures
            s@ == idle_tracking(),
    {
        Supervisor { pid: None, started_at: None }
    }

    /// Whether a worker is tracked.
    pub fn is_running(&self) -> (b: bool)
        ensures
            b == self@.running(),
            self@.consistent(),
    {
        proof {
            use_type_invariant(self);
        }
        self.pid.is_some()
    }

    /// The process id of the tracked worker.
    pub fn pid(&self) -> (p: Option<u32>)
        ensures
            p == self@.pid,
            self@.consistent(),
    {
        proof {
            use_type_invariant(self);
        }
        self.pid
    }

    /// The time at which the tracked worker was started.
    pub fn started_at(&self) -> (t: Option<u64>)
        ensures
            t == self@.started_at,
            self@.consistent(),
    {
        proof {
            use_type_invariant(self);
        }
        self.started_at
    }

    /// Admits or refuses a start. Nothing is changed either way: a refused
    /// start leaves the tracked worker as it is.
    pub fn begin_start(&self) -> (r: Result<StartRun, SupervisorError>)
        ensures
            r == start_admission(self@),
    {
        if self.pid.is_some() {
            Err(SupervisorError::AlreadyRunning)
        } else {
            Ok(StartRun { stage: StartStage::EntryPoint, restarting: false })
        }
    }

    /// Takes the decision that `event` calls for at the stage of `run`.
    pub fn advance_start(&mut self, run: StartRun, event: StartEvent) -> (p: Progress)
        ensures
            p == next_progress(run, event),
            final(self)@ == next_tracking(old(self)@, run, event),
            final(self)@.consistent(),
    {
        proof {
            use_type_invariant(&*self);
        }
        match (run.stage, event) {
            (StartStage::EntryPoint, StartEvent::Exists(found)) => {
                if found {
                    move_on(run, StartStage::ConfigFile)
                } else {
                    Progress::Finished(Err(SupervisorError::WorkerFilesMissing))
                }
            },
            (StartStage::ConfigFile, StartEvent::Exists(found)) => {
                if found {
                    move_on(run, StartStage::ReadConfig)
                } else {
                    Progress::Finished(Err(SupervisorError::ConfigNotSaved))
                }
            },
            (StartStage::ReadConfig, StartEvent::ConfigRead(Ok(config))) => {
                if config.has_token() {
                    move_on(run, StartStage::DependencyDir)
                } else {
                    Progress::Finished(Err(SupervisorError::TokenMissing))
                }
            },
            (StartStage::ReadConfig, StartEvent::ConfigRead(Err(reason))) => {
                Progress::Finished(Err(SupervisorError::IoFailure(reason)))
            },
            (StartStage::DependencyDir, StartEvent::Exists(found)) => {
                if found {
                    move_on(run, StartStage::DependencyMarker)
                } else {
                    move_on(run, StartStage::Install)
                }
            },
            (StartStage::DependencyMarker, StartEvent::Exists(found)) => {
                if found {
                    move_on(run, StartStage::Sync)
                } else {
                    move_on(run, StartStage::Install)
                }
            },
            (
                StartStage::Install,
                StartEvent::Installed(CommandOutcome::Finished { success, stdout, stderr }),
            ) => {
                if success {
                    move_on(run, StartStage::Sync)
                } else {
                    Progress::Finished(
                        Err(SupervisorError::DependencyInstallFailed { detail: stderr, ran: true }),
                    )
                }
            },
            (StartStage::Install, StartEvent::Installed(CommandOutcome::NotRun { reason })) => {
                Progress::Finished(
                    Err(SupervisorError::DependencyInstallFailed { detail: reason, ran: false }),
                )
            },
            (StartStage::Sync, StartEvent::Synced(Ok(_))) => move_on(run, StartStage::Spawn),
            (StartStage::Sync, StartEvent::Synced(Err(reason))) => {
                Progress::Finished(Err(SupervisorError::ConfigSyncFailed(reason)))
            },
            (StartStage::Spawn, StartEvent::Spawned { outcome: Ok(pid), now }) => {
                *self = Supervisor { pid: Some(pid), started_at: Some(now) };
                if run.restarting {
                    Progress::Finished(Ok(Reply::Restarted))
                } else {
                    Progress::Finished(Ok(Reply::Started))
                }
            },
            (StartStage::Spawn, StartEvent::Spawned { outcome: Err(reason), now }) => {
                Progress::Finished(Err(SupervisorError::SpawnFailed(reason)))
            },
            _ => Progress::Continue(run),
        }
    }

    /// Stops the worker. With a worker tracked this always succeeds, whether
    /// or not the kill reached it; with none tracked the control port is
    /// still swept, and the call reports that nothing was running. The
    /// supervisor tracks nothing afterwards. The shell performs the steps in
    /// order.
    pub fn stop(&mut self) -> (plan: (Vec<ReaperStep>, Result<Reply, SupervisorError>))
        ensures
            plan.0@ == stop_steps(old(self)@),
            plan.1 == stop_reply(old(self)@),
            final(self)@ == idle_tracking(),
    {
        let mut steps: Vec<ReaperStep> = Vec::new();
        let reply = match self.pid {
            Some(pid) => {
                steps.push(ReaperStep::SignalHandle);
                steps.push(ReaperStep::KillTree { pid });
                steps.push(ReaperStep::AwaitExit);
                Ok(Reply::Stopped)
            },
            None => {
                steps.push(ReaperStep::SweepPort);
                Err(SupervisorError::NotRunning)
            },
        };
        *self = Supervisor { pid: None, started_at: None };
        assert(steps@ =~= stop_steps(old(self)@));
        (steps, reply)
    }

    /// Begins a restart: the cleanup to perform, and the start to run once it
    /// is done. Restarting is legal with nothing tracked. The supervisor
    /// tracks nothing until the start has succeeded.
    pub fn begin_restart(&mut self) -> (plan: (Vec<ReaperStep>, StartRun))
        ensures
            plan.0@ == restart_steps(old(self)@),
            plan.1 == (StartRun { stage: StartStage::EntryPoint, restarting: true }),
            final(self)@ == idle_tracking(),
    {
        let (mut steps, _) = self.stop();
        steps.push(ReaperStep::SweepPort);
        steps.push(ReaperStep::Pause { millis: RESTART_SETTLE_MILLIS });
        assert(steps@ =~= restart_steps(old(self)@));
        (steps, StartRun { stage: StartStage::EntryPoint, restarting: true })
    }

    /// The manual cleanup for when tracking and reality have diverged. It
    /// does not look at what is tracked, changes nothing, and always
    /// succeeds.
    pub fn force_cleanup(&self) -> (plan: (Vec<ReaperStep>, Reply))
        ensures
            plan.0@ == cleanup_steps(),
            plan.1 == Reply::CleanedUp,
    {
        let mut steps: Vec<ReaperStep> = Vec::new();
        steps.push(ReaperStep::SweepPort);
        steps.push(ReaperStep::Pause { millis: CLEANUP_SETTLE_MILLIS });
        assert(steps@ =~= cleanup_steps());
        (steps, Reply::CleanedUp)
    }

    /// The cleanup when the application closes. The supervisor tracks
    /// nothing afterwards.
    pub fn shutdown(&mut self) -> (steps: Vec<ReaperStep>)
        ensures
            steps@ == shutdown_steps(old(self)@),
            final(self)@ == idle_tracking(),
    {
        let mut steps: Vec<ReaperStep> = Vec::new();
        match self.pid {
            Some(pid) => {
                steps.push(ReaperStep::SignalHandle);
                steps.push(ReaperStep::KillTree { pid });
                steps.push(ReaperStep::AwaitExit);
            },
            None => {},
        }
        steps.push(ReaperStep::SweepPort);
        *self = Supervisor { pid: None, started_at: None };
        assert(steps@ =~= shutdown_steps(old(self)@));
        steps
    }

    /// Answers a status query. `poll` is what a non-blocking exit check on
    /// the tracked process found; it is consulted only while a worker is
    /// tracked. A worker found to have exited is dropped from the record.
    pub fn status(&mut self, poll: ExitPoll, now: u64) -> (r: Result<BotStatus, SupervisorError>)
        ensures
            r == status_report(old(self)@, poll, now),
            final(self)@ == after_poll(old(self)@, poll),
            final(self)@.consistent(),
    {
        proof {
            use_type_invariant(&*self);
        }
        match self.pid {
            None => Ok(BotStatus { running: false, pid: None, uptime: None }),
            Some(pid) => match poll {
                ExitPoll::Exited => {
                    *self = Supervisor { pid: None, started_at: None };
                    Ok(BotStatus { running: false, pid: None, uptime: None })
                },
                ExitPoll::Alive => {
                    let uptime = match self.started_at {
                        Some(s) => Some(seconds_between(now, s)),
                        None => None,
                    };
                    Ok(BotStatus { running: true, pid: Some(pid), uptime })
                },
                ExitPoll::Failed(reason) => Err(SupervisorError::IoFailure(reason)),
            },
        }
    }

    /// Computes the hosting figures. `poll` is what a non-blocking exit check
    /// on the tracked process found; it is consulted only while a worker is
    /// tracked. A worker found to have exited is dropped from the record; a
    /// check that failed counts as not running and changes nothing.
    pub fn hosting_stats(&mut self, poll: ExitPoll, now: u64) -> (stats: HostingStats)
        ensures
            stats@ == hosting_report(old(self)@, poll, now),
            final(self)@ == after_poll(old(self)@, poll),
            final(self)@.consistent(),
    {
        proof {
            use_type_invariant(&*self);
        }
        let running = match self.pid {
            None => false,
            Some(_) => match poll {
                ExitPoll::Exited => {
                    *self = Supervisor { pid: None, started_at: None };
                    false
                },
                ExitPoll::Alive => true,
                ExitPoll::Failed(_) => false,
            },
        };
        let uptime_seconds = match self.started_at {
            Some(s) => if running {
                seconds_between(now, s)
            } else {
                0
            },
            None => 0,
        };
        let start_time = match self.started_at {
            Some(s) => if running {
                Some(format_timestamp(s))
            } else {
                None
            },
            None => None,
        };
        HostingStats { running, uptime: format_uptime(uptime_seconds), uptime_seconds, start_time }
    }
}

fn move_on(run: StartRun, stage: StartStage) -> (p: Progress)
    ensures
        p == at_stage(run, stage),
{
    Progress::Continue(StartRun { stage, restarting: run.restarting })
}

/// The cleanup before anything else runs when the application starts: no
/// worker is tracked yet, so the control port is swept for one left over
/// from an earlier run.
pub fn startup_cleanup() -> (steps: Vec<ReaperStep>)
    ensures
        steps@ == stop_steps(idle_tracking()),
        steps@ == seq![ReaperStep::SweepPort],
{
    let mut steps: Vec<ReaperStep> = Vec::new();
    steps.push(ReaperStep::SweepPort);
    assert(steps@ =~= seq![ReaperStep::SweepPort]);
    steps
}

/// Whole seconds from `started_at` to `now`.
pub fn seconds_between(now: u64, started_at: u64) -> (d: u64)
    ensures
        d == elapsed(now, started_at),
{
    if now >= started_at {
        now - started_at
    } else {
        0
    }
}

} // verus!
