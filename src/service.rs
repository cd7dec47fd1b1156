//! Settings and records of the services around the engine: the web control
//! plane, its session store, the print server and the voice assistant bridge.
use vstd::prelude::*;
use vstd::string::StringExecFns;

use crate::text::same_text;

verus! {

/// Settings of the voice assistant bridge.
#[derive(Debug)]
pub struct Config {
    /// Where the assistant finds the `setup.xml` document.
    pub setup_location: String,
    /// The `setup.xml` file handed to the assistant.
    pub setup_file: String,
    /// The unique service name announced in discovery replies.
    pub usn: String,
    /// The device id announced in discovery replies.
    pub device_id: String,
    /// A friendly server name announced in discovery replies.
    pub server: String,
    /// Where the web control plane runs.
    pub milton_addr: String,
    /// The token used to send it requests.
    pub milton_token: String,
}

/// What the voice assistant asks of the bridge.
#[derive(Debug)]
pub enum StateOperation {
    /// Read the on/off state.
    GetState(Option<String>),
    /// Set the on/off state.
    SetState(Option<String>),
}

/// The bridge's reply to the voice assistant.
#[derive(Clone, Copy, Debug, PartialEq, Eq, Structural)]
pub enum EventResponse {
    /// The state after a set.
    SetState(bool),
    /// The state asked for.
    GetState(bool),
}

/// The on/off state after a set to `value`: `1` is on, `0` is off, and
/// anything else leaves the state as it was.
pub open spec fn state_after_set(value: Seq<char>, on: bool) -> bool {
    if value == "1"@ {
        true
    } else if value == "0"@ {
        false
    } else {
        on
    }
}

/// Answers an assistant's request against the current on/off state: the
/// state afterwards, and the reply. A request whose value did not come
/// through gets no answer.
pub fn respond(operation: &StateOperation, on: bool) -> (r: Option<(bool, EventResponse)>)
    ensures
        match operation {
            StateOperation::SetState(Some(v)) => r == Some(
                (state_after_set(v@, on), EventResponse::SetState(state_after_set(v@, on))),
            ),
            StateOperation::GetState(Some(_)) => r == Some((on, EventResponse::GetState(on))),
            _ => r is None,
        },
{
    match operation {
        StateOperation::SetState(Some(value)) => {
            let next = if same_text(value.as_str(), "1") {
                true
            } else if same_text(value.as_str(), "0") {
                false
            } else {
                on
            };
            Some((next, EventResponse::SetState(next)))
        },
        StateOperation::GetState(Some(_)) => Some((on, EventResponse::GetState(on))),
        _ => None,
    }
}

/// Settings of the web control plane.
#[derive(Debug)]
pub struct Configuration {
    pub octoprint_api_url: String,
    pub octoprint_api_key: String,
    pub auth_complete_uri: String,
    pub jwt_secret: String,
    pub redis_host: String,
    pub redis_port: u32,
    pub token_store: String,
    pub domain: String,
    pub octoprint_stream_token: Option<String>,
}

/// Where the session store listens, and its password.
#[derive(Debug)]
pub struct RedisConfig {
    pub host: String,
    pub port: String,
    pub password: String,
}

impl RedisConfig {
    /// The `host:port` address of the store.
    pub fn address(&self) -> (r: String)
        ensures
            r@ == self.host@ + ":"@ + self.port@,
    {
        self.host.clone().concat(":").concat(self.port.as_str())
    }
}

/// How long a session token lasts, in seconds.
pub const SESSION_LIFETIME_SECS: usize = 3600;

/// The claims of a session token.
#[derive(Debug)]
pub struct Claims {
    /// When the token expires, in seconds since the epoch.
    pub exp: usize,
    /// The user the token was issued to.
    pub oid: String,
    /// The provider's token for that user.
    pub token: String,
}

impl Claims {
    /// Claims for a user, expiring one session lifetime after `now` (seconds
    /// since the epoch); at `now` itself should that not be representable.
    pub fn for_sub(oid: String, token: String, now: usize) -> (r: Claims)
        ensures
            r.oid == oid,
            r.token == token,
            r.exp == if now + SESSION_LIFETIME_SECS <= usize::MAX {
                now + SESSION_LIFETIME_SECS
            } else {
                now as int
            },
    {
        let exp = match now.checked_add(SESSION_LIFETIME_SECS) {
            Some(later) => later,
            None => now,
        };
        Claims { exp, oid, token }
    }
}

/// The file of a print job.
#[derive(Debug)]
pub struct OctoprintJobFile {
    pub name: Option<String>,
}

/// A print job.
#[derive(Debug)]
pub struct OctoprintJob {
    pub file: Option<OctoprintJobFile>,
}

} // verus!
