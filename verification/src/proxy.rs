//! Requests to the worker's control API and the reading of its answers.
//!
//! Every call is a single HTTP request to a fixed local address, with a time
//! budget of its own; nothing is retried. The shell sends the request and
//! reports what came back; answers are passed on verbatim.

use vstd::prelude::*;
use vstd::string::StringExecFns;
use crate::error::SupervisorError;
use crate::text::decimal;
use crate::text::push_decimal;
use crate::CONTROL_PORT;

verus! {

/// A call of the worker's control API, with what it carries.
#[derive(Debug, Clone, PartialEq, Eq)]
pub enum ApiCall {
    /// The quick reachability probe.
    Ping,
    /// The worker's status.
    Status,
    /// The worker's data.
    Data,
    /// The servers the worker has joined.
    Servers,
    /// Switch the worker to another server.
    SwitchServer { guild_id: String },
    /// Carry out an action; `params` is JSON text, passed on as it is.
    Action { action: String, params: String },
    /// Send a control command.
    Control { command: String },
    /// Carry out a quick action.
    QuickAction { action: String, target: String, value: String },
}

/// The HTTP method of a request.
#[derive(Debug, Clone, Copy, PartialEq, Eq, Structural)]
pub enum Method {
    Get,
    Post,
}

/// One HTTP request. A request with a body is sent with content type
/// `application/json`.
#[derive(Debug, Clone, PartialEq, Eq)]
pub struct ApiRequest {
    pub method: Method,
    pub url: String,
    pub timeout_secs: u64,
    pub body: Option<String>,
}

/// Where the control API is served: the local host and the control port.
pub open spec fn base_url() -> Seq<char> {
    "http://127.0.0.1:"@ + decimal(CONTROL_PORT as nat)
}

impl ApiCall {
    /// The quick reachability probe, as opposed to every other call.
    pub open spec fn is_ping(self) -> bool {
        self is Ping
    }

    /// The path of the call.
    pub open spec fn path(self) -> Seq<char> {
        match self {
            ApiCall::Ping => "/ping"@,
            ApiCall::Status => "/status"@,
            ApiCall::Data => "/data"@,
            ApiCall::Servers => "/servers"@,
            ApiCall::SwitchServer { .. } => "/switch-server"@,
            ApiCall::Action { .. } => "/action"@,
            ApiCall::Control { .. } => "/control"@,
            ApiCall::QuickAction { .. } => "/quick-action"@,
        }
    }

    /// The method of the call: queries are read, commands are posted.
    pub open spec fn method(self) -> Method {
        match self {
            ApiCall::Ping | ApiCall::Status | ApiCall::Data | ApiCall::Servers => Method::Get,
            _ => Method::Post,
        }
    }

    /// The time budget of the call, in seconds.
    pub open spec fn timeout_secs(self) -> u64 {
        match self {
            ApiCall::Ping => 1,
            ApiCall::Status => 2,
            ApiCall::Data | ApiCall::Servers | ApiCall::SwitchServer { .. } => 5,
            ApiCall::Action { .. } | ApiCall::Control { .. } | ApiCall::QuickAction { .. } => 10,
        }
    }

    /// The JSON body of the call, for the calls that have one. What the call
    /// carries is written into the body as it is given.
    pub open spec fn body(self) -> Option<Seq<char>> {
        match self {
            ApiCall::SwitchServer { guild_id } => Some("{\"guildId\":\""@ + guild_id@ + "\"}"@),
            ApiCall::Action { action, params } => Some(
                "{\"action\":\""@ + action@ + "\",\"params\":"@ + params@ + "}"@,
            ),
            ApiCall::Control { command } => Some("{\"command\":\""@ + command@ + "\"}"@),
            ApiCall::QuickAction { action, target, value } => Some(
                "{\"action\":\""@ + action@ + "\",\"target\":\""@ + target@ + "\",\"value\":\""@
                    + value@ + "\"}"@,
            ),
            _ => None,
        }
    }

    /// The request that makes this call.
    pub fn request(&self) -> (r: ApiRequest)
        ensures
            r.method == self.method(),
            r.url@ == base_url() + self.path(),
            r.timeout_secs == self.timeout_secs(),
            match r.body {
                Some(text) => self.body() == Some(text@),
                None => self.body() is None,
            },
    {
        let mut url = String::from_str("http://127.0.0.1:");
        push_decimal(&mut url, CONTROL_PORT as u64);
        let (method, path, timeout_secs, body) = match self {
            ApiCall::Ping => (Method::Get, "/ping", 1u64, None),
            ApiCall::Status => (Method::Get, "/status", 2u64, None),
            ApiCall::Data => (Method::Get, "/data", 5u64, None),
            ApiCall::Servers => (Method::Get, "/servers", 5u64, None),
            ApiCall::SwitchServer { guild_id } => {
                let mut b = String::from_str("{\"guildId\":\"");
                b.append(guild_id.as_str());
                b.append("\"}");
                (Method::Post, "/switch-server", 5u64, Some(b))
            },
            ApiCall::Action { action, params } => {
                let mut b = String::from_str("{\"action\":\"");
                b.append(action.as_str());
                b.append("\",\"params\":");
                b.append(params.as_str());
                b.append("}");
                (Method::Post, "/action", 10u64, Some(b))
            },
            ApiCall::Control { command } => {
                let mut b = String::from_str("{\"command\":\"");
                b.append(command.as_str());
                b.append("\"}");
                (Method::Post, "/control", 10u64, Some(b))
            },
            ApiCall::QuickAction { action, target, value } => {
                let mut b = String::from_str("{\"action\":\"");
                b.append(action.as_str());
                b.append("\",\"target\":\"");
                b.append(target.as_str());
                b.append("\",\"value\":\"");
                b.append(value.as_str());
                b.append("\"}");
                (Method::Post, "/quick-action", 10u64, Some(b))
            },
        };
        url.append(path);
        ApiRequest { method, url, timeout_secs, body }
    }
}

/// What became of a request.
#[derive(Debug, PartialEq, Eq)]
pub enum Exchange {
    /// The HTTP client could not be set up.
    ClientFailed(String),
    /// The request did not get through: connection refused, timed out.
    Unreachable,
    /// The worker answered. `success` holds for a success status; `body` is
    /// the text of the answer, or why it could not be read.
    Answered { success: bool, body: Result<String, String> },
}

/// The result of `call`, given what became of its request: a request that
/// did not get through means the API is unreachable; a failure status means
/// the worker is not ready, for the data query only; otherwise the body is
/// the result, as it came.
pub open spec fn call_result(call: ApiCall, exchange: Exchange) -> Result<String, SupervisorError> {
    match exchange {
        Exchange::ClientFailed(reason) => Err(SupervisorError::IoFailure(reason)),
        Exchange::Unreachable => Err(SupervisorError::ApiUnreachable { ping: call.is_ping() }),
        Exchange::Answered { success, body } => if call is Data && !success {
            Err(SupervisorError::WorkerNotReady)
        } else {
            match body {
                Ok(text) => Ok(text),
                Err(reason) => Err(SupervisorError::IoFailure(reason)),
            }
        },
    }
}

/// Reads the result of `call` off what became of its request.
pub fn interpret(call: &ApiCall, exchange: Exchange) -> (r: Result<String, SupervisorError>)
    ensures
        r == call_result(*call, exchange),
{
    match exchange {
        Exchange::ClientFailed(reason) => Err(SupervisorError::IoFailure(reason)),
        Exchange::Unreachable => {
            let ping = match call {
                ApiCall::Ping => true,
                _ => false,
            };
            Err(SupervisorError::ApiUnreachable { ping })
        },
        Exchange::Answered { success, body } => {
            let is_data = match call {
                ApiCall::Data => true,
                _ => false,
            };
            if is_data && !success {
                Err(SupervisorError::WorkerNotReady)
            } else {
                match body {
                    Ok(text) => Ok(text),
                    Err(reason) => Err(SupervisorError::IoFailure(reason)),
                }
            }
        },
    }
}

/// The address of the control API, written out.
pub proof fn lemma_base_url()
    ensures
        base_url() == "http://127.0.0.1:47832"@,
{
    reveal_with_fuel(decimal, 6);
    reveal_strlit("http://127.0.0.1:");
    reveal_strlit("http://127.0.0.1:47832");
    assert(decimal(CONTROL_PORT as nat) =~= seq!['4', '7', '8', '3', '2']);
    assert(base_url() =~= "http://127.0.0.1:47832"@);
}

} // verus!
