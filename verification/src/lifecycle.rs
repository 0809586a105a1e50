//! Whole lifecycle commands as sequences of decisions, and what holds of
//! every such sequence.

use vstd::prelude::*;
use crate::command::CommandOutcome;
use crate::error::SupervisorError;
use crate::supervisor::answers;
use crate::supervisor::idle_tracking;
use crate::supervisor::next_progress;
use crate::supervisor::next_tracking;
use crate::supervisor::start_admission;
use crate::supervisor::stop_reply;
use crate::supervisor::stop_steps;
use crate::supervisor::restart_steps;
use crate::supervisor::success_reply;
use crate::supervisor::Progress;
use crate::supervisor::ReaperStep;
use crate::supervisor::Reply;
use crate::supervisor::StartEvent;
use crate::supervisor::StartRun;
use crate::supervisor::StartStage;
use crate::supervisor::Supervisor;
use crate::supervisor::Tracking;

verus! {

/// The number of stages of a start.
pub open spec fn stage_count() -> nat {
    8
}

/// The run with which a restart enters its start phase.
pub open spec fn restart_run() -> StartRun {
    StartRun { stage: StartStage::EntryPoint, restarting: true }
}

/// Where a start stands, and what is on record, once the shell has reported
/// `events` in order, beginning at `run` with record `t`. Events reported
/// after the start is over are not looked at.
pub open spec fn run_start(t: Tracking, run: StartRun, events: Seq<StartEvent>) -> (
    Tracking,
    Progress,
)
    decreases events.len(),
{
    if events.len() == 0 {
        (t, Progress::Continue(run))
    } else {
        let t1 = next_tracking(t, run, events[0]);
        match next_progress(run, events[0]) {
            Progress::Continue(r1) => run_start(t1, r1, events.drop_first()),
            Progress::Finished(result) => (t1, Progress::Finished(result)),
        }
    }
}

/// Carries a start through the events that the shell reported, in order,
/// until the start is over or the events are used up.
pub fn replay_start(supervisor: &mut Supervisor, run: StartRun, events: Vec<StartEvent>) -> (p:
    Progress)
    ensures
        (final(supervisor)@, p) == run_start(old(supervisor)@, run, events@),
{
    let mut current = run;
    let ghost all = events@;
    let ghost begin = supervisor@;
    assert(all.skip(0) =~= all);
    for event in it: events
        invariant
            it.seq() == all,
            all == events@,
            begin == old(supervisor)@,
            run_start(begin, run, all) == run_start(supervisor@, current, all.skip(it.index() as int)),
    {
        let ghost rest = all.skip(it.index() as int);
        assert(rest[0] == event);
        assert(rest.drop_first() =~= all.skip(it.index() + 1));
        match supervisor.advance_start(current, event) {
            Progress::Continue(next) => {
                current = next;
            },
            Progress::Finished(result) => {
                return Progress::Finished(result);
            },
        }
    }
    Progress::Continue(current)
}

/// Whether `event` reports that the stage went well. The two probes for
/// the worker's dependencies go well either way: where they find nothing,
/// the installer is run.
pub open spec fn goes_well(stage: StartStage, event: StartEvent) -> bool {
    match (stage, event) {
        (StartStage::EntryPoint, StartEvent::Exists(found)) => found,
        (StartStage::ConfigFile, StartEvent::Exists(found)) => found,
        (StartStage::ReadConfig, StartEvent::ConfigRead(Ok(config))) => config.token_set(),
        (StartStage::DependencyDir, StartEvent::Exists(_)) => true,
        (StartStage::DependencyMarker, StartEvent::Exists(_)) => true,
        (
            StartStage::Install,
            StartEvent::Installed(CommandOutcome::Finished { success, stdout, stderr }),
        ) => success,
        (StartStage::Sync, StartEvent::Synced(Ok(_))) => true,
        (StartStage::Spawn, StartEvent::Spawned { outcome: Ok(_), now }) => true,
        _ => false,
    }
}

/// Whether every event of `events` that the start beginning at `run` looks
/// at reports that its stage went well.
pub open spec fn all_goes_well(run: StartRun, events: Seq<StartEvent>) -> bool
    decreases events.len(),
{
    if events.len() == 0 {
        true
    } else {
        goes_well(run.stage, events[0]) && match next_progress(run, events[0]) {
            Progress::Continue(r1) => all_goes_well(r1, events.drop_first()),
            Progress::Finished(_) => true,
        }
    }
}

/// A lifecycle command together with what the shell reports while it is
/// carried out.
pub enum Call {
    Start { events: Seq<StartEvent> },
    Stop,
    Restart { events: Seq<StartEvent> },
}

/// The record after `call` on record `t`. A start that is refused changes
/// nothing; stopping clears the record; a restart clears it and then runs
/// its start phase.
pub open spec fn after_call(t: Tracking, call: Call) -> Tracking {
    match call {
        Call::Start { events } => match start_admission(t) {
            Ok(run) => run_start(t, run, events).0,
            Err(_) => t,
        },
        Call::Stop => idle_tracking(),
        Call::Restart { events } => run_start(idle_tracking(), restart_run(), events).0,
    }
}

/// The record after `calls`, carried out in order on record `t`.
pub open spec fn after_calls(t: Tracking, calls: Seq<Call>) -> Tracking
    decreases calls.len(),
{
    if calls.len() == 0 {
        t
    } else {
        after_call(after_calls(t, calls.drop_last()), calls.last())
    }
}

/// An event that answers the stage either ends the start or moves it to a
/// later stage of the same run; an event that does not answer it changes
/// nothing.
pub proof fn lemma_start_step_advances(t: Tracking, run: StartRun, event: StartEvent)
    ensures
        answers(run.stage, event) ==> match next_progress(run, event) {
            Progress::Continue(r1) => r1.stage.rank() > run.stage.rank() && r1.restarting
                == run.restarting,
            Progress::Finished(_) => true,
        },
        !answers(run.stage, event) ==> next_progress(run, event) == Progress::Continue(run)
            && next_tracking(t, run, event) == t,
        run.stage.rank() < stage_count(),
{
}

/// The worker is launched only for a configuration with a token: a start
/// gets past reading the configuration only by reading one whose token is
/// set.
pub proof fn lemma_token_gate(run: StartRun, event: StartEvent)
    requires
        run.stage.rank() <= StartStage::ReadConfig.rank(),
        next_progress(run, event) matches Progress::Continue(r1) && r1.stage.rank()
            > StartStage::ReadConfig.rank(),
    ensures
        run.stage == StartStage::ReadConfig,
        event matches StartEvent::ConfigRead(Ok(config)) && config.token_set(),
{
}

/// A start changes the record only by succeeding: it ends in success
/// exactly when it has recorded a launched worker with its process id and
/// start time, and until then, or when it fails, the record is as it was.
pub proof fn lemma_start_records_only_success(
    t: Tracking,
    run: StartRun,
    events: Seq<StartEvent>,
)
    ensures
        run_start(t, run, events).1 matches Progress::Finished(Ok(reply)) ==> {
            &&& reply == success_reply(run)
            &&& run_start(t, run, events).0.running()
            &&& run_start(t, run, events).0.consistent()
        },
        !(run_start(t, run, events).1 matches Progress::Finished(Ok(_))) ==> run_start(
            t,
            run,
            events,
        ).0 == t,
    decreases events.len(),
{
    if events.len() > 0 {
        match next_progress(run, events[0]) {
            Progress::Continue(r1) => {
                lemma_start_records_only_success(
                    next_tracking(t, run, events[0]),
                    r1,
                    events.drop_first(),
                );
            },
            Progress::Finished(_) => {},
        }
    }
}

/// After any sequence of start, stop and restart commands, whether they
/// succeed or fail, the supervisor either tracks nothing or tracks a worker
/// with both its process id and its start time.
pub proof fn lemma_record_stays_consistent(t: Tracking, calls: Seq<Call>)
    requires
        t.consistent(),
    ensures
        after_calls(t, calls).consistent(),
        after_calls(t, calls).idle() || (after_calls(t, calls).pid is Some && after_calls(
            t,
            calls,
        ).started_at is Some),
    decreases calls.len(),
{
    if calls.len() > 0 {
        let before = after_calls(t, calls.drop_last());
        lemma_record_stays_consistent(t, calls.drop_last());
        match calls.last() {
            Call::Start { events } => {
                if let Ok(run) = start_admission(before) {
                    lemma_start_records_only_success(before, run, events);
                }
            },
            Call::Stop => {},
            Call::Restart { events } => {
                lemma_start_records_only_success(idle_tracking(), restart_run(), events);
            },
        }
    }
}

/// A start that succeeded refuses the next start: the second call fails
/// with `AlreadyRunning`, whatever the shell would report, and the worker
/// recorded by the first is untouched.
pub proof fn lemma_second_start_is_refused(
    t: Tracking,
    first: Seq<StartEvent>,
    second: Seq<StartEvent>,
)
    requires
        start_admission(t) is Ok,
        run_start(t, start_admission(t)->Ok_0, first).1 matches Progress::Finished(Ok(_)),
    ensures
        start_admission(after_call(t, Call::Start { events: first })) == Err::<
            StartRun,
            SupervisorError,
        >(SupervisorError::AlreadyRunning),
        after_call(after_call(t, Call::Start { events: first }), Call::Start { events: second })
            == after_call(t, Call::Start { events: first }),
{
    lemma_start_records_only_success(t, start_admission(t)->Ok_0, first);
}

/// Stopping with nothing tracked reports `NotRunning`, and still has the
/// control port swept.
pub proof fn lemma_stop_when_idle_still_sweeps(t: Tracking)
    requires
        t.idle(),
    ensures
        stop_reply(t) == Err::<Reply, SupervisorError>(SupervisorError::NotRunning),
        stop_steps(t) == seq![ReaperStep::SweepPort],
{
}

/// Once the authoritative configuration is read and its token is empty, the
/// start is over with `TokenMissing`: no later stage is asked for, so no
/// dependency is installed, no configuration copied and no worker
/// launched, and the record is as it was.
pub proof fn lemma_empty_token_ends_start(
    t: Tracking,
    run: StartRun,
    event: StartEvent,
    later: Seq<StartEvent>,
)
    requires
        run.stage == StartStage::ReadConfig,
        event matches StartEvent::ConfigRead(Ok(config)) && !config.token_set(),
    ensures
        next_progress(run, event) == Progress::Finished(Err(SupervisorError::TokenMissing)),
        run_start(t, run, seq![event] + later) == (
            t,
            Progress::Finished(Err(SupervisorError::TokenMissing)),
        ),
{
    let events = seq![event] + later;
    assert(events[0] == event);
}

/// A start in which every stage goes well does not fail, and it has
/// succeeded, with a worker on record, once one event per remaining stage
/// has been reported.
pub proof fn lemma_start_succeeds_when_all_goes_well(
    t: Tracking,
    run: StartRun,
    events: Seq<StartEvent>,
)
    requires
        all_goes_well(run, events),
    ensures
        !(run_start(t, run, events).1 matches Progress::Finished(Err(_))),
        events.len() + run.stage.rank() >= stage_count() ==> {
            &&& run_start(t, run, events).1 == Progress::Finished(Ok(success_reply(run)))
            &&& run_start(t, run, events).0.running()
        },
    decreases events.len(),
{
    if events.len() > 0 {
        match next_progress(run, events[0]) {
            Progress::Continue(r1) => {
                lemma_start_succeeds_when_all_goes_well(
                    next_tracking(t, run, events[0]),
                    r1,
                    events.drop_first(),
                );
            },
            Progress::Finished(_) => {},
        }
    }
}

/// A restart is legal with nothing tracked: its cleanup is then the port
/// sweeps and the settle interval, and if every stage of its start phase
/// goes well it succeeds and ends with a worker tracked.
pub proof fn lemma_restart_from_idle(t: Tracking, events: Seq<StartEvent>)
    requires
        t.idle(),
        all_goes_well(restart_run(), events),
        events.len() >= stage_count(),
    ensures
        restart_steps(t) == seq![
            ReaperStep::SweepPort,
            ReaperStep::SweepPort,
            ReaperStep::Pause { millis: crate::supervisor::RESTART_SETTLE_MILLIS },
        ],
        run_start(idle_tracking(), restart_run(), events).1 == Progress::Finished(
            Ok(Reply::Restarted),
        ),
        after_call(t, Call::Restart { events }).running(),
        after_call(t, Call::Restart { events }).consistent(),
{
    lemma_start_succeeds_when_all_goes_well(idle_tracking(), restart_run(), events);
    lemma_start_records_only_success(idle_tracking(), restart_run(), events);
}

} // verus!
