//! Supervision of a single long-running worker process on behalf of a desktop
//! shell: lifecycle decisions, uptime accounting, command lines for process
//! cleanup, requests to the worker's control API and the texts shown to users.
//!
//! The library decides and computes; the shell around it touches the
//! filesystem, the network and the operating system and reports back what it
//! found.

use vstd::prelude::*;

pub mod text;
pub mod error;
pub mod config;
pub mod command;
pub mod clock;
pub mod supervisor;
pub mod lifecycle;
pub mod logs;
pub mod presence;
pub mod proxy;
pub mod paths;
pub mod setup;
pub mod assets;
pub mod plan;

verus! {

/// The fixed local TCP port on which the worker serves its control API.
pub const CONTROL_PORT: u16 = 47832;

} // verus!
