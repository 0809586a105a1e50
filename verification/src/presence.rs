//! The status summary published on the presence channel, and the course
//! the beacon that publishes it takes.
//!
//! The beacon is cosmetic and has no return channel: where the channel
//! cannot be opened it stops without a word, and a publication that fails
//! is discarded.

use vstd::prelude::*;
use vstd::string::StringExecFns;
use crate::text::contains;
use crate::text::last_line;
use crate::text::last_line_of;
use crate::text::str_contains;

verus! {

/// Seconds between two publications of the activity.
pub const PRESENCE_REFRESH_SECS: u64 = 15;

/// The application id under which the activity is published.
pub fn presence_app_id() -> (id: &'static str)
    ensures
        id@ == "1190558638067163226"@,
{
    "1190558638067163226"
}

/// Whether the log shows the worker online: its last line says that the
/// worker has logged in or is online.
pub open spec fn shows_online(log: Option<Seq<char>>) -> bool {
    match log {
        Some(text) => match last_line(text) {
            Some(line) => contains(line, "eingeloggt"@) || contains(line, "online"@),
            None => false,
        },
        None => false,
    }
}

/// The state line for a worker that is online or not.
pub open spec fn state_text(online: bool) -> Seq<char> {
    if online {
        "Bot ist Online"@
    } else {
        "Nexus Discord Tool"@
    }
}

/// The details line for a worker that is online or not.
pub open spec fn details_text(online: bool) -> Seq<char> {
    if online {
        "Verwaltet Discord Server"@
    } else {
        "Bot Management Dashboard"@
    }
}

/// Whether the log shows the worker online, given the content of the log
/// file (`None` where it does not exist or cannot be read).
pub fn log_shows_online(log: Option<&str>) -> (b: bool)
    ensures
        b == shows_online(
            match log {
                Some(text) => Some(text@),
                None => None,
            },
        ),
{
    match log {
        Some(text) => match last_line_of(text) {
            Some(line) => str_contains(line.as_str(), "eingeloggt") || str_contains(
                line.as_str(),
                "online",
            ),
            None => false,
        },
        None => false,
    }
}

/// The state and details lines to publish, given the content of the
/// worker's log file (`None` where it does not exist or cannot be read).
pub fn get_presence_status(log: Option<&str>) -> (r: (String, String))
    ensures
        r.0@ == state_text(
            shows_online(
                match log {
                    Some(text) => Some(text@),
                    None => None,
                },
            ),
        ),
        r.1@ == details_text(
            shows_online(
                match log {
                    Some(text) => Some(text@),
                    None => None,
                },
            ),
        ),
{
    if log_shows_online(log) {
        (String::from_str("Bot ist Online"), String::from_str("Verwaltet Discord Server"))
    } else {
        (String::from_str("Nexus Discord Tool"), String::from_str("Bot Management Dashboard"))
    }
}

/// One publication on the presence channel.
#[derive(Debug, Clone, PartialEq, Eq)]
pub struct Activity {
    pub state: String,
    pub details: String,
    pub large_image: String,
    pub large_text: String,
    pub small_image: String,
    pub small_text: String,
    /// When the session began, in seconds since the epoch.
    pub session_start: i64,
    pub button_label: String,
    pub button_url: String,
}

impl Activity {
    /// The activity carries the state and details for `online`, the fixed
    /// images, captions and invitation button, and `session_start`.
    pub open spec fn describes(self, online: bool, session_start: i64) -> bool {
        &&& self.state@ == state_text(online)
        &&& self.details@ == details_text(online)
        &&& self.large_image@ == "nexus_logo"@
        &&& self.large_text@ == "Nexus Discord Tool"@
        &&& self.small_image@ == "online"@
        &&& self.small_text@ == "Bot Management"@
        &&& self.session_start == session_start
        &&& self.button_label@ == "Nexus+ Server beitreten"@
        &&& self.button_url@ == "https://discord.gg/htkJRM9jFw"@
    }
}

/// The activity to publish now, given the content of the worker's log file
/// and the time the application was launched. The session start is the
/// launch time in every publication.
pub fn presence_activity(log: Option<&str>, launched_at: i64) -> (a: Activity)
    ensures
        a.describes(
            shows_online(
                match log {
                    Some(text) => Some(text@),
                    None => None,
                },
            ),
            launched_at,
        ),
{
    let (state, details) = get_presence_status(log);
    Activity {
        state,
        details,
        large_image: String::from_str("nexus_logo"),
        large_text: String::from_str("Nexus Discord Tool"),
        small_image: String::from_str("online"),
        small_text: String::from_str("Bot Management"),
        session_start: launched_at,
        button_label: String::from_str("Nexus+ Server beitreten"),
        button_url: String::from_str("https://discord.gg/htkJRM9jFw"),
    }
}

/// What the beacon did last, and how it went.
#[derive(Debug, Clone, Copy, PartialEq, Eq, Structural)]
pub enum BeaconReport {
    /// The application was launched and the launch time recorded; nothing
    /// else was done yet.
    Launched,
    /// The client for the presence channel was set up, or could not be.
    ClientSetUp { ok: bool },
    /// The connection to the presence channel was made, or could not be.
    Connected { ok: bool },
    /// The activity was published, or could not be.
    Published { ok: bool },
    /// The time between two publications has passed.
    Waited,
}

/// What the beacon is to do next.
#[derive(Debug, Clone, Copy, PartialEq, Eq, Structural)]
pub enum BeaconStep {
    /// Set up the client for the presence channel.
    SetUpClient,
    /// Connect to the presence channel.
    Connect,
    /// Publish the activity of the moment.
    Publish,
    /// Wait for `secs` seconds.
    Wait { secs: u64 },
    /// Stop for the rest of the process's life.
    Stop,
}

/// The beacon's next step after `report`: the channel is opened in two
/// steps, and the beacon stops for good where either fails; once the
/// channel is open the beacon publishes and waits in turn, for ever,
/// whether or not a publication went through.
pub open spec fn beacon_step(report: BeaconReport) -> BeaconStep {
    match report {
        BeaconReport::Launched => BeaconStep::SetUpClient,
        BeaconReport::ClientSetUp { ok } => if ok {
            BeaconStep::Connect
        } else {
            BeaconStep::Stop
        },
        BeaconReport::Connected { ok } => if ok {
            BeaconStep::Publish
        } else {
            BeaconStep::Stop
        },
        BeaconReport::Published { ok } => BeaconStep::Wait { secs: PRESENCE_REFRESH_SECS },
        BeaconReport::Waited => BeaconStep::Publish,
    }
}

/// Decides what the beacon does next, given what it did last.
pub fn next_beacon_step(report: BeaconReport) -> (step: BeaconStep)
    ensures
        step == beacon_step(report),
{
    match report {
        BeaconReport::Launched => BeaconStep::SetUpClient,
        BeaconReport::ClientSetUp { ok } => {
            if ok {
                BeaconStep::Connect
            } else {
                BeaconStep::Stop
            }
        },
        BeaconReport::Connected { ok } => {
            if ok {
                BeaconStep::Publish
            } else {
                BeaconStep::Stop
            }
        },
        BeaconReport::Published { ok } => BeaconStep::Wait { secs: PRESENCE_REFRESH_SECS },
        BeaconReport::Waited => BeaconStep::Publish,
    }
}

/// The beacon stops exactly where the channel could not be opened: once it
/// is open, nothing stops the beacon, and a publication that failed is
/// followed by the same wait as one that went through.
pub proof fn lemma_beacon_stops_only_unopened(report: BeaconReport)
    ensures
        beacon_step(report) is Stop <==> (report == (BeaconReport::ClientSetUp { ok: false })
            || report == (BeaconReport::Connected { ok: false })),
        beacon_step(BeaconReport::Published { ok: false }) == beacon_step(
            BeaconReport::Published { ok: true },
        ),
{
}


} // verus!
