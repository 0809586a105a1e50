use bot_supervisor::command::CommandOutcome;
use bot_supervisor::config::BotConfig;
use bot_supervisor::error::SupervisorError;
use bot_supervisor::supervisor::seconds_between;
use bot_supervisor::supervisor::BotStatus;
use bot_supervisor::supervisor::ExitPoll;
use bot_supervisor::supervisor::Progress;
use bot_supervisor::supervisor::ReaperStep;
use bot_supervisor::supervisor::Reply;
use bot_supervisor::supervisor::StartEvent;
use bot_supervisor::supervisor::StartRun;
use bot_supervisor::supervisor::StartStage;
use bot_supervisor::supervisor::Supervisor;
use bot_supervisor::supervisor::CLEANUP_SETTLE_MILLIS;
use bot_supervisor::supervisor::RESTART_SETTLE_MILLIS;

fn config(token: &str) -> BotConfig {
    BotConfig {
        token: token.to_string(),
        client_id: "1".to_string(),
        guild_id: "2".to_string(),
        prefix: "!".to_string(),
    }
}

fn installed(success: bool, stderr: &str) -> StartEvent {
    StartEvent::Installed(CommandOutcome::Finished {
        success,
        stdout: String::new(),
        stderr: stderr.to_string(),
    })
}

fn spawned(pid: u32, now: u64) -> StartEvent {
    StartEvent::Spawned { outcome: Ok(pid), now }
}

/// Feeds `events` to a start until it is over; returns the stages passed
/// and how the start ended.
fn drive(
    sup: &mut Supervisor,
    mut run: StartRun,
    events: Vec<StartEvent>,
) -> (Vec<StartStage>, Option<Result<Reply, SupervisorError>>) {
    let mut stages = vec![run.stage];
    for event in events {
        match sup.advance_start(run, event) {
            Progress::Continue(next) => {
                run = next;
                stages.push(run.stage);
            }
            Progress::Finished(result) => return (stages, Some(result)),
        }
    }
    (stages, None)
}

fn good_events(pid: u32, now: u64) -> Vec<StartEvent> {
    vec![
        StartEvent::Exists(true),
        StartEvent::Exists(true),
        StartEvent::ConfigRead(Ok(config("secret"))),
        StartEvent::Exists(true),
        StartEvent::Exists(true),
        StartEvent::Synced(Ok(())),
        spawned(pid, now),
    ]
}

fn started(pid: u32, now: u64) -> Supervisor {
    let mut sup = Supervisor::new();
    let run = sup.begin_start().unwrap();
    let (_, end) = drive(&mut sup, run, good_events(pid, now));
    assert_eq!(end, Some(Ok(Reply::Started)));
    sup
}

#[test]
fn new_supervisor_is_idle() {
    let sup = Supervisor::new();
    assert!(!sup.is_running());
    assert_eq!(sup.pid(), None);
    assert_eq!(sup.started_at(), None);
}

#[test]
fn start_passes_every_stage_in_order() {
    let mut sup = Supervisor::new();
    let run = sup.begin_start().unwrap();
    assert_eq!(run, StartRun { stage: StartStage::EntryPoint, restarting: false });
    let (stages, end) = drive(&mut sup, run, good_events(4242, 1_700_000_000));
    assert_eq!(
        stages,
        vec![
            StartStage::EntryPoint,
            StartStage::ConfigFile,
            StartStage::ReadConfig,
            StartStage::DependencyDir,
            StartStage::DependencyMarker,
            StartStage::Sync,
            StartStage::Spawn,
        ]
    );
    assert_eq!(end, Some(Ok(Reply::Started)));
    assert!(sup.is_running());
    assert_eq!(sup.pid(), Some(4242));
    assert_eq!(sup.started_at(), Some(1_700_000_000));
}

#[test]
fn start_installs_when_the_dependency_directory_is_missing() {
    let mut sup = Supervisor::new();
    let run = sup.begin_start().unwrap();
    let events = vec![
        StartEvent::Exists(true),
        StartEvent::Exists(true),
        StartEvent::ConfigRead(Ok(config("t"))),
        StartEvent::Exists(false),
        installed(true, ""),
        StartEvent::Synced(Ok(())),
        spawned(9, 50),
    ];
    let (stages, end) = drive(&mut sup, run, events);
    assert_eq!(
        stages,
        vec![
            StartStage::EntryPoint,
            StartStage::ConfigFile,
            StartStage::ReadConfig,
            StartStage::DependencyDir,
            StartStage::Install,
            StartStage::Sync,
            StartStage::Spawn,
        ]
    );
    assert_eq!(end, Some(Ok(Reply::Started)));
    assert_eq!(sup.pid(), Some(9));
}

#[test]
fn start_installs_when_the_marker_package_is_missing() {
    let mut sup = Supervisor::new();
    let run = sup.begin_start().unwrap();
    let events = vec![
        StartEvent::Exists(true),
        StartEvent::Exists(true),
        StartEvent::ConfigRead(Ok(config("t"))),
        StartEvent::Exists(true),
        StartEvent::Exists(false),
        installed(true, ""),
        StartEvent::Synced(Ok(())),
        spawned(9, 50),
    ];
    let (stages, end) = drive(&mut sup, run, events);
    assert_eq!(stages[4], StartStage::DependencyMarker);
    assert_eq!(stages[5], StartStage::Install);
    assert_eq!(stages.len(), 8);
    assert_eq!(end, Some(Ok(Reply::Started)));
}

#[test]
fn start_twice_fails_already_running_and_keeps_the_first_worker() {
    let sup = started(4242, 1000);
    assert_eq!(sup.begin_start(), Err(SupervisorError::AlreadyRunning));
    assert_eq!(sup.pid(), Some(4242));
    assert_eq!(sup.started_at(), Some(1000));
}

#[test]
fn start_without_worker_files_fails() {
    let mut sup = Supervisor::new();
    let run = sup.begin_start().unwrap();
    let (stages, end) = drive(&mut sup, run, vec![StartEvent::Exists(false)]);
    assert_eq!(stages, vec![StartStage::EntryPoint]);
    assert_eq!(end, Some(Err(SupervisorError::WorkerFilesMissing)));
    assert!(!sup.is_running());
}

#[test]
fn start_without_saved_config_fails() {
    let mut sup = Supervisor::new();
    let run = sup.begin_start().unwrap();
    let (_, end) =
        drive(&mut sup, run, vec![StartEvent::Exists(true), StartEvent::Exists(false)]);
    assert_eq!(end, Some(Err(SupervisorError::ConfigNotSaved)));
    assert!(!sup.is_running());
}

#[test]
fn start_with_empty_token_fails_without_spawning() {
    let mut sup = Supervisor::new();
    let run = sup.begin_start().unwrap();
    let mut events = good_events(1, 1);
    events[2] = StartEvent::ConfigRead(Ok(config("")));
    let (stages, end) = drive(&mut sup, run, events);
    assert_eq!(end, Some(Err(SupervisorError::TokenMissing)));
    assert_eq!(
        stages,
        vec![StartStage::EntryPoint, StartStage::ConfigFile, StartStage::ReadConfig]
    );
    assert!(!stages.contains(&StartStage::Spawn));
    assert!(!sup.is_running());
}

#[test]
fn start_with_unreadable_config_fails() {
    let mut sup = Supervisor::new();
    let run = sup.begin_start().unwrap();
    let events = vec![
        StartEvent::Exists(true),
        StartEvent::Exists(true),
        StartEvent::ConfigRead(Err("expected value at line 1 column 1".to_string())),
    ];
    let (_, end) = drive(&mut sup, run, events);
    assert_eq!(
        end,
        Some(Err(SupervisorError::IoFailure("expected value at line 1 column 1".to_string())))
    );
}

#[test]
fn start_fails_when_the_installer_fails() {
    let mut sup = Supervisor::new();
    let run = sup.begin_start().unwrap();
    let events = vec![
        StartEvent::Exists(true),
        StartEvent::Exists(true),
        StartEvent::ConfigRead(Ok(config("t"))),
        StartEvent::Exists(false),
        installed(false, "npm ERR! network"),
    ];
    let (_, end) = drive(&mut sup, run, events);
    assert_eq!(
        end,
        Some(Err(SupervisorError::DependencyInstallFailed {
            detail: "npm ERR! network".to_string(),
            ran: true
        }))
    );
    assert!(!sup.is_running());
}

#[test]
fn start_fails_when_the_installer_cannot_run() {
    let mut sup = Supervisor::new();
    let run = StartRun { stage: StartStage::Install, restarting: false };
    let event =
        StartEvent::Installed(CommandOutcome::NotRun { reason: "No such file".to_string() });
    assert_eq!(
        sup.advance_start(run, event),
        Progress::Finished(Err(SupervisorError::DependencyInstallFailed {
            detail: "No such file".to_string(),
            ran: false
        }))
    );
}

#[test]
fn start_fails_when_the_config_cannot_be_copied() {
    let mut sup = Supervisor::new();
    let run = StartRun { stage: StartStage::Sync, restarting: false };
    assert_eq!(
        sup.advance_start(run, StartEvent::Synced(Err("disk full".to_string()))),
        Progress::Finished(Err(SupervisorError::ConfigSyncFailed("disk full".to_string())))
    );
    assert!(!sup.is_running());
}

#[test]
fn start_fails_when_the_worker_cannot_be_spawned() {
    let mut sup = Supervisor::new();
    let run = StartRun { stage: StartStage::Spawn, restarting: false };
    let event = StartEvent::Spawned { outcome: Err("not found".to_string()), now: 5 };
    assert_eq!(
        sup.advance_start(run, event),
        Progress::Finished(Err(SupervisorError::SpawnFailed("not found".to_string())))
    );
    assert!(!sup.is_running());
    assert_eq!(sup.started_at(), None);
}

#[test]
fn an_event_of_the_wrong_kind_decides_nothing() {
    let mut sup = Supervisor::new();
    let run = StartRun { stage: StartStage::EntryPoint, restarting: false };
    assert_eq!(sup.advance_start(run, spawned(1, 1)), Progress::Continue(run));
    assert!(!sup.is_running());
    let run = StartRun { stage: StartStage::Spawn, restarting: true };
    assert_eq!(sup.advance_start(run, StartEvent::Exists(true)), Progress::Continue(run));
    assert!(!sup.is_running());
}

#[test]
fn stop_when_idle_reports_not_running_and_sweeps_the_port() {
    let mut sup = Supervisor::new();
    let (steps, reply) = sup.stop();
    assert_eq!(reply, Err(SupervisorError::NotRunning));
    assert_eq!(steps, vec![ReaperStep::SweepPort]);
    assert!(!sup.is_running());
}

#[test]
fn stop_when_running_kills_the_tree_and_clears_the_record() {
    let mut sup = started(321, 10);
    let (steps, reply) = sup.stop();
    assert_eq!(reply, Ok(Reply::Stopped));
    assert_eq!(
        steps,
        vec![ReaperStep::SignalHandle, ReaperStep::KillTree { pid: 321 }, ReaperStep::AwaitExit]
    );
    assert!(!sup.is_running());
    assert_eq!(sup.pid(), None);
    assert_eq!(sup.started_at(), None);
}

#[test]
fn stop_twice_reports_not_running_the_second_time() {
    let mut sup = started(321, 10);
    assert_eq!(sup.stop().1, Ok(Reply::Stopped));
    assert_eq!(sup.stop().1, Err(SupervisorError::NotRunning));
}

#[test]
fn restart_from_idle_succeeds_and_ends_running() {
    let mut sup = Supervisor::new();
    let (steps, run) = sup.begin_restart();
    assert_eq!(
        steps,
        vec![
            ReaperStep::SweepPort,
            ReaperStep::SweepPort,
            ReaperStep::Pause { millis: 1000 }
        ]
    );
    assert_eq!(run, StartRun { stage: StartStage::EntryPoint, restarting: true });
    let (_, end) = drive(&mut sup, run, good_events(77, 123));
    assert_eq!(end, Some(Ok(Reply::Restarted)));
    assert!(sup.is_running());
    assert_eq!(sup.pid(), Some(77));
    assert_eq!(sup.started_at(), Some(123));
}

#[test]
fn restart_from_running_replaces_the_worker() {
    let mut sup = started(5, 100);
    let (steps, run) = sup.begin_restart();
    assert_eq!(
        steps,
        vec![
            ReaperStep::SignalHandle,
            ReaperStep::KillTree { pid: 5 },
            ReaperStep::AwaitExit,
            ReaperStep::SweepPort,
            ReaperStep::Pause { millis: RESTART_SETTLE_MILLIS }
        ]
    );
    assert!(!sup.is_running());
    let (_, end) = drive(&mut sup, run, good_events(6, 200));
    assert_eq!(end, Some(Ok(Reply::Restarted)));
    assert_eq!(sup.pid(), Some(6));
    assert_eq!(sup.started_at(), Some(200));
}

#[test]
fn restart_whose_start_fails_ends_idle() {
    let mut sup = started(5, 100);
    let (_, run) = sup.begin_restart();
    let mut events = good_events(6, 200);
    events[6] = StartEvent::Spawned { outcome: Err("denied".to_string()), now: 200 };
    let (_, end) = drive(&mut sup, run, events);
    assert_eq!(end, Some(Err(SupervisorError::SpawnFailed("denied".to_string()))));
    assert!(!sup.is_running());
    assert_eq!(sup.started_at(), None);
}

#[test]
fn force_cleanup_sweeps_and_waits_whatever_is_tracked() {
    let idle = Supervisor::new();
    let (steps, reply) = idle.force_cleanup();
    assert_eq!(steps, vec![ReaperStep::SweepPort, ReaperStep::Pause { millis: 500 }]);
    assert_eq!(reply, Reply::CleanedUp);
    assert_eq!(CLEANUP_SETTLE_MILLIS, 500);
    let running = started(1, 1);
    let (steps, reply) = running.force_cleanup();
    assert_eq!(steps, vec![ReaperStep::SweepPort, ReaperStep::Pause { millis: 500 }]);
    assert_eq!(reply, Reply::CleanedUp);
    assert_eq!(running.pid(), Some(1));
}

#[test]
fn shutdown_kills_the_worker_and_sweeps() {
    let mut sup = started(88, 1);
    assert_eq!(
        sup.shutdown(),
        vec![
            ReaperStep::SignalHandle,
            ReaperStep::KillTree { pid: 88 },
            ReaperStep::AwaitExit,
            ReaperStep::SweepPort
        ]
    );
    assert!(!sup.is_running());
    assert_eq!(sup.shutdown(), vec![ReaperStep::SweepPort]);
}

#[test]
fn status_when_idle() {
    let mut sup = Supervisor::new();
    let idle = BotStatus { running: false, pid: None, uptime: None };
    assert_eq!(sup.status(ExitPoll::Alive, 10), Ok(idle));
    assert_eq!(sup.status(ExitPoll::Exited, 10), Ok(idle));
    assert_eq!(sup.status(ExitPoll::Failed("x".to_string()), 10), Ok(idle));
}

#[test]
fn status_when_running_reports_pid_and_uptime() {
    let mut sup = started(4242, 1000);
    assert_eq!(
        sup.status(ExitPoll::Alive, 1075),
        Ok(BotStatus { running: true, pid: Some(4242), uptime: Some(75) })
    );
    assert!(sup.is_running());
}

#[test]
fn status_reaps_a_worker_that_has_exited() {
    let mut sup = started(4242, 1000);
    assert_eq!(
        sup.status(ExitPoll::Exited, 1075),
        Ok(BotStatus { running: false, pid: None, uptime: None })
    );
    assert!(!sup.is_running());
    assert_eq!(sup.pid(), None);
    assert_eq!(sup.started_at(), None);
    assert!(sup.begin_start().is_ok());
}

#[test]
fn status_passes_on_a_failed_exit_check() {
    let mut sup = started(4242, 1000);
    assert_eq!(
        sup.status(ExitPoll::Failed("EPERM".to_string()), 1075),
        Err(SupervisorError::IoFailure("EPERM".to_string()))
    );
    assert_eq!(sup.pid(), Some(4242));
}

#[test]
fn uptime_is_zero_when_the_clock_stepped_back() {
    let mut sup = started(1, 1000);
    assert_eq!(
        sup.status(ExitPoll::Alive, 900),
        Ok(BotStatus { running: true, pid: Some(1), uptime: Some(0) })
    );
    assert_eq!(seconds_between(900, 1000), 0);
    assert_eq!(seconds_between(1000, 1000), 0);
    assert_eq!(seconds_between(1001, 1000), 1);
    assert_eq!(seconds_between(u64::MAX, 0), u64::MAX);
}

#[test]
fn hosting_stats_when_running() {
    let mut sup = started(1, 951827400);
    let stats = sup.hosting_stats(ExitPoll::Alive, 951827400 + 90061);
    assert!(stats.running);
    assert_eq!(stats.uptime_seconds, 90061);
    assert_eq!(stats.uptime, "1d 1h 1m");
    assert_eq!(stats.start_time, Some("29.02.2000 13:30".to_string()));
    assert!(sup.is_running());
}

#[test]
fn hosting_stats_when_idle() {
    let mut sup = Supervisor::new();
    let stats = sup.hosting_stats(ExitPoll::Alive, 500);
    assert!(!stats.running);
    assert_eq!(stats.uptime_seconds, 0);
    assert_eq!(stats.uptime, "0s");
    assert_eq!(stats.start_time, None);
}

#[test]
fn hosting_stats_reap_a_worker_that_has_exited() {
    let mut sup = started(1, 100);
    let stats = sup.hosting_stats(ExitPoll::Exited, 500);
    assert!(!stats.running);
    assert_eq!(stats.uptime_seconds, 0);
    assert_eq!(stats.uptime, "0s");
    assert_eq!(stats.start_time, None);
    assert!(!sup.is_running());
}

#[test]
fn hosting_stats_count_a_failed_check_as_not_running() {
    let mut sup = started(1, 100);
    let stats = sup.hosting_stats(ExitPoll::Failed("x".to_string()), 500);
    assert!(!stats.running);
    assert_eq!(stats.uptime, "0s");
    assert_eq!(stats.start_time, None);
    assert_eq!(sup.pid(), Some(1));
}

#[test]
fn record_is_consistent_after_any_calls() {
    let mut sup = Supervisor::new();
    let check = |s: &Supervisor| {
        assert_eq!(s.pid().is_some(), s.started_at().is_some());
        assert_eq!(s.is_running(), s.pid().is_some());
    };
    check(&sup);
    let _ = sup.stop();
    check(&sup);
    let run = sup.begin_start().unwrap();
    let _ = drive(&mut sup, run, vec![StartEvent::Exists(true), StartEvent::Exists(false)]);
    check(&sup);
    let run = sup.begin_start().unwrap();
    let _ = drive(&mut sup, run, good_events(3, 30));
    check(&sup);
    assert!(sup.begin_start().is_err());
    check(&sup);
    let (_, run) = sup.begin_restart();
    check(&sup);
    let _ = drive(&mut sup, run, vec![StartEvent::Exists(false)]);
    check(&sup);
    let (_, run) = sup.begin_restart();
    let _ = drive(&mut sup, run, good_events(4, 40));
    check(&sup);
    let _ = sup.status(ExitPoll::Exited, 50);
    check(&sup);
    let _ = sup.shutdown();
    check(&sup);
}

#[test]
fn reply_messages() {
    assert_eq!(Reply::Started.message(), "Bot started");
    assert_eq!(Reply::Restarted.message(), "Bot restarted");
    assert_eq!(Reply::Stopped.message(), "Bot stopped");
    assert_eq!(Reply::CleanedUp.message(), "Cleanup durchgeführt");
    assert_eq!(Reply::ConfigSaved.message(), "Configuration saved");
    assert_eq!(Reply::StatusConfigSaved.message(), "Status config saved");
    assert_eq!(Reply::LogsCleared.message(), "Logs cleared");
    assert_eq!(Reply::DependenciesInstalled.message(), "Dependencies installed successfully");
}

#[test]
fn startup_sweeps_the_port() {
    assert_eq!(bot_supervisor::supervisor::startup_cleanup(), vec![ReaperStep::SweepPort]);
}
