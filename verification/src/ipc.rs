//! Wire types for the daemon's Unix socket and the decisions on both ends
//! of it: how the daemon answers a request, and how the GUI reads the answer.

use crate::text::{chars_of, push_str, string_from_chars, trim};
use vstd::prelude::*;

verus! {

/// Path of the daemon's Unix socket.
pub const SOCKET_PATH: &'static str = "/run/nzxt-ctl/daemon.sock";

/// Snapshot of live state, written by the control loop once per cycle and
/// read by any number of clients. Temperatures are in millidegrees Celsius.
#[derive(Clone, Debug)]
pub struct LiveState {
    pub liquid_temp_mdeg: Option<i32>,
    pub cpu_temp_mdeg: Option<i32>,
    pub gpu_temp_mdeg: Option<i32>,
    pub pump_rpm: Option<u32>,
    pub fan_rpm: Option<u32>,
    pub pump_duty_pct: Option<u8>,
    pub fan_duty_pct: Option<u8>,
    /// Which mode the daemon is actually running, as ground truth.
    pub active_mode: Option<String>,
    /// Whether the safety failsafe overrode the active mode this cycle.
    pub failsafe_active: bool,
}

impl LiveState {
    /// The state before the control loop has run: nothing known, no failsafe.
    pub fn empty() -> (s: LiveState)
        ensures
            s.liquid_temp_mdeg is None,
            s.cpu_temp_mdeg is None,
            s.gpu_temp_mdeg is None,
            s.pump_rpm is None,
            s.fan_rpm is None,
            s.pump_duty_pct is None,
            s.fan_duty_pct is None,
            s.active_mode is None,
            !s.failsafe_active,
    {
        LiveState {
            liquid_temp_mdeg: None,
            cpu_temp_mdeg: None,
            gpu_temp_mdeg: None,
            pump_rpm: None,
            fan_rpm: None,
            pump_duty_pct: None,
            fan_duty_pct: None,
            active_mode: None,
            failsafe_active: false,
        }
    }

    /// A copy of this state.
    pub fn snapshot(&self) -> (s: LiveState)
        ensures
            s == *self,
    {
        let active_mode = match &self.active_mode {
            Some(m) => Some(m.clone()),
            None => None,
        };
        LiveState {
            liquid_temp_mdeg: self.liquid_temp_mdeg,
            cpu_temp_mdeg: self.cpu_temp_mdeg,
            gpu_temp_mdeg: self.gpu_temp_mdeg,
            pump_rpm: self.pump_rpm,
            fan_rpm: self.fan_rpm,
            pump_duty_pct: self.pump_duty_pct,
            fan_duty_pct: self.fan_duty_pct,
            active_mode,
            failsafe_active: self.failsafe_active,
        }
    }
}

/// Requests a client can send over the socket.
#[derive(Clone, Copy, Debug, PartialEq, Eq, Structural)]
pub enum Request {
    GetState,
    /// The client has rewritten the config file and asks the daemon to
    /// pick up the change without a restart.
    ReloadConfig,
}

/// The daemon's answers.
#[derive(Debug)]
pub enum Response {
    /// The current live state (sent on the wire with status `Ok`).
    State { state: LiveState },
    ReloadOk,
    Error { message: String },
}

/// A request line the daemon skips: empty once whitespace is trimmed.
pub fn is_blank_line(line: &str) -> (b: bool)
    ensures
        b == (trim(line@).len() == 0),
{
    let chars = chars_of(line);
    let t = crate::text::trimmed(&chars);
    t.len() == 0
}

/// How the daemon answers one request line, given the outcome of decoding
/// it and the current state; the flag says whether to schedule a config
/// reload. Reload only flags the main loop: the config is not read here.
pub fn handle_request(request: Result<Request, String>, state: &LiveState) -> (r: (
    Response,
    bool,
))
    ensures
        match request {
            Ok(Request::GetState) => (r.0 matches Response::State { state: s } && s == *state) && !r.1,
            Ok(Request::ReloadConfig) => r.0 is ReloadOk && r.1,
            Err(e) => (r.0 matches Response::Error { message: m } && m@ == "invalid request: "@
                + e@) && !r.1,
        },
{
    match request {
        Ok(Request::GetState) => (Response::State { state: state.snapshot() }, false),
        Ok(Request::ReloadConfig) => (Response::ReloadOk, true),
        Err(e) => {
            let mut v: Vec<char> = Vec::new();
            push_str(&mut v, "invalid request: ");
            push_str(&mut v, e.as_str());
            (Response::Error { message: string_from_chars(&v) }, false)
        },
    }
}

/// Why a client call did not get the answer it asked for.
#[derive(Debug)]
pub enum ClientError {
    /// The daemon answered with an error message.
    Daemon { message: String },
    /// The daemon answered, but not in the shape the request calls for.
    UnexpectedResponse { request: Request },
}

pub open spec fn request_name(r: Request) -> Seq<char> {
    match r {
        Request::GetState => "GetState"@,
        Request::ReloadConfig => "ReloadConfig"@,
    }
}

pub open spec fn client_error_text(e: ClientError) -> Seq<char> {
    match e {
        ClientError::Daemon { message } => "daemon error: "@ + message@,
        ClientError::UnexpectedResponse { request } => "unexpected response type for "@
            + request_name(request),
    }
}

impl ClientError {
    /// The message reported for this error.
    pub fn message(&self) -> (s: String)
        ensures
            s@ == client_error_text(*self),
    {
        let mut v: Vec<char> = Vec::new();
        match self {
            ClientError::Daemon { message } => {
                push_str(&mut v, "daemon error: ");
                push_str(&mut v, message.as_str());
            },
            ClientError::UnexpectedResponse { request } => {
                push_str(&mut v, "unexpected response type for ");
                match request {
                    Request::GetState => push_str(&mut v, "GetState"),
                    Request::ReloadConfig => push_str(&mut v, "ReloadConfig"),
                }
            },
        }
        string_from_chars(&v)
    }
}

/// The live state carried by the daemon's answer to `GetState`.
pub fn state_from_response(response: Response) -> (r: Result<LiveState, ClientError>)
    ensures
        match response {
            Response::State { state } => r == Ok::<LiveState, ClientError>(state),
            Response::Error { message } => r == Err::<LiveState, ClientError>(
                ClientError::Daemon { message },
            ),
            Response::ReloadOk => r == Err::<LiveState, ClientError>(
                ClientError::UnexpectedResponse { request: Request::GetState },
            ),
        },
{
    match response {
        Response::State { state } => Ok(state),
        Response::Error { message } => Err(ClientError::Daemon { message }),
        Response::ReloadOk => Err(ClientError::UnexpectedResponse { request: Request::GetState }),
    }
}

/// Whether the daemon's answer to `ReloadConfig` acknowledges it.
pub fn reload_from_response(response: Response) -> (r: Result<(), ClientError>)
    ensures
        match response {
            Response::ReloadOk => r == Ok::<(), ClientError>(()),
            Response::Error { message } => r == Err::<(), ClientError>(
                ClientError::Daemon { message },
            ),
            Response::State { .. } => r == Err::<(), ClientError>(
                ClientError::UnexpectedResponse { request: Request::ReloadConfig },
            ),
        },
{
    match response {
        Response::ReloadOk => Ok(()),
        Response::Error { message } => Err(ClientError::Daemon { message }),
        Response::State { .. } => Err(
            ClientError::UnexpectedResponse { request: Request::ReloadConfig },
        ),
    }
}

} // verus!
