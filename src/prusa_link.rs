//! The PrusaLink backend: authentication choice, classification of a poll, the
//! projection of its payload into a job status, and the display of that status.
use vstd::prelude::*;
use vstd::string::StringExecFns;

use crate::display::{I3Display, I3DisplayError, I3StatusRustColorState};
use crate::remote::{push_remaining, remaining_text, status_error_text, status_text, HttpReply};
use crate::text::{push_tenths, tenths_text};

verus! {

/// Options of the PrusaLink check: base URL, credentials, whether to hide the remaining time.
pub struct PrusaLinkArgs {
    pub url: String,
    pub login: Option<String>,
    pub password: Option<String>,
    pub token: Option<String>,
    pub hide_remaining_time: bool,
}

/// The payload of `/api/v1/status`, as far as the status needs it.
pub struct PrusaLinkJobResponse {
    pub job: Option<PrusaLinkJob>,
    pub printer: PrusaPrinter,
}

/// The current job; progress in tenths of a percent, times in seconds.
#[derive(Clone, Copy, Debug, PartialEq, Eq, Structural)]
pub struct PrusaLinkJob {
    pub progress_tenths: u64,
    pub time_printing: i64,
    pub time_remaining: i64,
}

/// The printer part of the payload.
#[derive(Clone, Copy, Debug, PartialEq, Eq, Structural)]
pub struct PrusaPrinter {
    pub state: PrusaPrintState,
}

/// Printer states reported by PrusaLink.
#[derive(Clone, Copy, Debug, PartialEq, Eq, Structural)]
pub enum PrusaPrintState {
    Printing,
    Paused,
    Finished,
    Stopped,
    Idle,
    Busy,
    Ready,
    Attention,
}

/// The glyph shown for each state.
pub open spec fn prusa_glyph(s: PrusaPrintState) -> Seq<char> {
    match s {
        PrusaPrintState::Printing => "\u{f0e5b}"@,
        PrusaPrintState::Paused => "\u{f042b} \u{f28b}"@,
        PrusaPrintState::Finished => "\u{f042b} \u{f058}"@,
        PrusaPrintState::Stopped => "\u{f042b} \u{eba5}"@,
        PrusaPrintState::Idle => "\u{f042b} \u{f04b2}"@,
        PrusaPrintState::Busy => "\u{f18b9}"@,
        PrusaPrintState::Ready => "\u{f042b} \u{f04b2}"@,
        PrusaPrintState::Attention => "\u{f11c1}"@,
    }
}

/// The state's name in the API.
pub open spec fn prusa_state_name(s: PrusaPrintState) -> Seq<char> {
    match s {
        PrusaPrintState::Printing => "PRINTING"@,
        PrusaPrintState::Paused => "PAUSED"@,
        PrusaPrintState::Finished => "FINISHED"@,
        PrusaPrintState::Stopped => "STOPPED"@,
        PrusaPrintState::Idle => "IDLE"@,
        PrusaPrintState::Busy => "BUSY"@,
        PrusaPrintState::Ready => "READY"@,
        PrusaPrintState::Attention => "ATTENTION"@,
    }
}

/// States in which the printer has a job whose progress is reported.
pub open spec fn needs_job(s: PrusaPrintState) -> bool {
    match s {
        PrusaPrintState::Printing | PrusaPrintState::Paused | PrusaPrintState::Stopped
        | PrusaPrintState::Attention => true,
        _ => false,
    }
}

impl PrusaPrintState {
    /// The glyph shown for the state.
    pub fn to_string(&self) -> (r: String)
        ensures
            r@ == prusa_glyph(*self),
    {
        match self {
            PrusaPrintState::Printing => String::from_str("\u{f0e5b}"),
            PrusaPrintState::Paused => String::from_str("\u{f042b} \u{f28b}"),
            PrusaPrintState::Finished => String::from_str("\u{f042b} \u{f058}"),
            PrusaPrintState::Stopped => String::from_str("\u{f042b} \u{eba5}"),
            PrusaPrintState::Idle => String::from_str("\u{f042b} \u{f04b2}"),
            PrusaPrintState::Busy => String::from_str("\u{f18b9}"),
            PrusaPrintState::Ready => String::from_str("\u{f042b} \u{f04b2}"),
            PrusaPrintState::Attention => String::from_str("\u{f11c1}"),
        }
    }

    /// The state's name in the API ("PRINTING").
    pub fn api_name(&self) -> (r: String)
        ensures
            r@ == prusa_state_name(*self),
    {
        match self {
            PrusaPrintState::Printing => String::from_str("PRINTING"),
            PrusaPrintState::Paused => String::from_str("PAUSED"),
            PrusaPrintState::Finished => String::from_str("FINISHED"),
            PrusaPrintState::Stopped => String::from_str("STOPPED"),
            PrusaPrintState::Idle => String::from_str("IDLE"),
            PrusaPrintState::Busy => String::from_str("BUSY"),
            PrusaPrintState::Ready => String::from_str("READY"),
            PrusaPrintState::Attention => String::from_str("ATTENTION"),
        }
    }
}

/// A printer status: state, remaining seconds, completion in tenths of a percent.
#[derive(Clone, Copy, Debug, PartialEq, Eq, Structural)]
pub struct PrusaLinkStatus {
    pub status: PrusaPrintState,
    pub remaining_time: i64,
    pub completion_tenths: u64,
}

/// Why a poll gave no status.
#[derive(Debug)]
pub enum PrusaLinkError {
    InvalidCredentials,
    InvalidConnection(String),
    ConnectionTimeout,
    ConnectionRefused,
    InvalidResponse(String),
    DeserializationError(String),
}

pub open spec fn prusa_error_text(e: PrusaLinkError) -> Seq<char> {
    match e {
        PrusaLinkError::InvalidCredentials => "No token or login/password provided"@,
        PrusaLinkError::InvalidConnection(x) => "Invalid connection: "@ + x@,
        PrusaLinkError::ConnectionTimeout => "Connection timeout"@,
        PrusaLinkError::ConnectionRefused => "Connection refused"@,
        PrusaLinkError::InvalidResponse(x) => "Invalid response: "@ + x@,
        PrusaLinkError::DeserializationError(x) => "Deserialization error: "@ + x@,
    }
}

/// Whether the error means that the printer is not there (off or unreachable).
pub open spec fn prusa_is_absent(e: PrusaLinkError) -> bool {
    e is ConnectionRefused || e is ConnectionTimeout
}

impl PrusaLinkError {
    /// The message shown for the error.
    pub fn to_string(&self) -> (r: String)
        ensures
            r@ == prusa_error_text(*self),
    {
        match self {
            PrusaLinkError::InvalidCredentials => String::from_str("No token or login/password provided"),
            PrusaLinkError::InvalidConnection(x) => {
                let mut r = String::from_str("Invalid connection: ");
                r.append(x.as_str());
                r
            },
            PrusaLinkError::ConnectionTimeout => String::from_str("Connection timeout"),
            PrusaLinkError::ConnectionRefused => String::from_str("Connection refused"),
            PrusaLinkError::InvalidResponse(x) => {
                let mut r = String::from_str("Invalid response: ");
                r.append(x.as_str());
                r
            },
            PrusaLinkError::DeserializationError(x) => {
                let mut r = String::from_str("Deserialization error: ");
                r.append(x.as_str());
                r
            },
        }
    }

    /// Classifies a request that got no reply: a timeout, a refused connection,
    /// or anything else with its message.
    pub fn from_send_failure(is_timeout: bool, is_connect: bool, message: String) -> (r: PrusaLinkError)
        ensures
            is_timeout ==> r is ConnectionTimeout,
            !is_timeout && is_connect ==> r is ConnectionRefused,
            !is_timeout && !is_connect ==> r is InvalidResponse && r->InvalidResponse_0 == message,
    {
        if is_timeout {
            PrusaLinkError::ConnectionTimeout
        } else if is_connect {
            PrusaLinkError::ConnectionRefused
        } else {
            PrusaLinkError::InvalidResponse(message)
        }
    }
}

/// Whether a token, or both login and password, are configured.
pub open spec fn prusa_has_credentials(command: PrusaLinkArgs) -> bool {
    command.token is Some || (command.login is Some && command.password is Some)
}

/// How a poll authenticates.
pub enum PrusaLinkAuth {
    /// The `X-Api-Key` header.
    ApiKey(String),
    /// HTTP Digest authentication.
    Digest { login: String, password: String },
}

/// Completion of a job in a state, in tenths of a percent.
pub open spec fn prusa_completion(state: PrusaPrintState, job: Option<PrusaLinkJob>) -> u64 {
    if needs_job(state) {
        job.unwrap().progress_tenths
    } else if state == PrusaPrintState::Finished {
        1000
    } else {
        0
    }
}

/// What a poll of the status endpoint yields, given its status code and decoded body.
pub open spec fn prusa_outcome(
    code: u16,
    body: Result<PrusaLinkJobResponse, String>,
    r: Result<PrusaLinkStatus, PrusaLinkError>,
) -> bool {
    if code == 200 {
        match body {
            Err(e) => r is Err && r->Err_0 is DeserializationError && r->Err_0->DeserializationError_0@
                == e@,
            Ok(content) => {
                let state = content.printer.state;
                if needs_job(state) && content.job.is_none() {
                    r is Err && r->Err_0 is InvalidResponse && r->Err_0->InvalidResponse_0@
                        == "no job data in state "@ + prusa_state_name(state)
                } else {
                    r == Ok::<PrusaLinkStatus, PrusaLinkError>(
                        PrusaLinkStatus {
                            status: state,
                            remaining_time: match content.job {
                                Some(j) => j.time_remaining,
                                None => 0,
                            },
                            completion_tenths: prusa_completion(state, content.job),
                        },
                    )
                }
            },
        }
    } else if code == 408 || code == 504 {
        r is Err && r->Err_0 is ConnectionTimeout
    } else if code == 403 {
        r is Err && r->Err_0 is InvalidCredentials
    } else {
        r is Err && r->Err_0 is InvalidResponse && r->Err_0->InvalidResponse_0@ == "Error: "@ + status_text(
            code,
        )
    }
}

/// The line shown for a status.
pub open spec fn prusa_line(s: PrusaLinkStatus, hide_remaining_time: bool) -> Seq<char> {
    if s.status == PrusaPrintState::Printing {
        let base = prusa_glyph(s.status) + " "@ + tenths_text(s.completion_tenths as nat) + "%"@;
        if hide_remaining_time {
            base
        } else {
            base + " "@ + remaining_text(s.remaining_time)
        }
    } else {
        prusa_glyph(s.status)
    }
}

/// The severity shown for a status: a warning when the printer asks for attention,
/// good when the job is finished, none otherwise.
pub open spec fn prusa_color(s: PrusaPrintState) -> Option<I3StatusRustColorState> {
    match s {
        PrusaPrintState::Attention => Some(I3StatusRustColorState::I3StatusRustStateWarning),
        PrusaPrintState::Finished => Some(I3StatusRustColorState::I3StatusRustStateGood),
        _ => None,
    }
}

/// The display of a status: no icon, the same long and short line, the state's colour.
pub open spec fn prusa_display(s: PrusaLinkStatus, hide_remaining_time: bool, d: I3Display) -> bool {
    &&& d.icon.is_none()
    &&& d.long_line@ == prusa_line(s, hide_remaining_time)
    &&& d.short_line@ == d.long_line@
    &&& d.color == prusa_color(s.status)
}

impl PrusaLinkStatus {
    /// The authentication a poll uses: the token when there is one, else digest
    /// authentication with login and password; with neither, no poll is made.
    pub fn auth(command: &PrusaLinkArgs) -> (r: Result<PrusaLinkAuth, PrusaLinkError>)
        ensures
            command.token.is_some() ==> r is Ok && r->Ok_0 is ApiKey && r->Ok_0->ApiKey_0
                == command.token.unwrap(),
            command.token.is_none() && command.login.is_some() && command.password.is_some() ==> r is Ok
                && r->Ok_0 is Digest && r->Ok_0->login == command.login.unwrap() && r->Ok_0->password
                == command.password.unwrap(),
            command.token.is_none() && (command.login.is_none() || command.password.is_none()) ==> r is Err
                && r->Err_0 is InvalidCredentials,
    {
        match &command.token {
            Some(t) => Ok(PrusaLinkAuth::ApiKey(t.clone())),
            None => match (&command.login, &command.password) {
                (Some(l), Some(p)) => Ok(PrusaLinkAuth::Digest { login: l.clone(), password: p.clone() }),
                _ => Err(PrusaLinkError::InvalidCredentials),
            },
        }
    }

    /// The address polled: the base URL followed by `/api/v1/status`.
    pub fn status_url(url: &String) -> (r: String)
        ensures
            r@ == url@ + "/api/v1/status"@,
    {
        let mut r = url.clone();
        r.append("/api/v1/status");
        r
    }

    /// Turns a reply into a status: a 200 reply's body is projected, taking the
    /// completion from the job in states that have one; other codes are errors.
    pub fn to_prusa_link_status(status: u16, body: Result<PrusaLinkJobResponse, String>) -> (r: Result<
        PrusaLinkStatus,
        PrusaLinkError,
    >)
        ensures
            prusa_outcome(status, body, r),
    {
        if status == 200 {
            match body {
                Err(e) => Err(PrusaLinkError::DeserializationError(e)),
                Ok(content) => {
                    let state = content.printer.state;
                    let remaining_time = match content.job {
                        Some(j) => j.time_remaining,
                        None => 0,
                    };
                    let completion_tenths = match state {
                        PrusaPrintState::Printing | PrusaPrintState::Paused | PrusaPrintState::Stopped
                        | PrusaPrintState::Attention => match content.job {
                            Some(j) => j.progress_tenths,
                            None => {
                                let mut m = String::from_str("no job data in state ");
                                let name = state.api_name();
                                m.append(name.as_str());
                                return Err(PrusaLinkError::InvalidResponse(m));
                            },
                        },
                        PrusaPrintState::Idle | PrusaPrintState::Busy | PrusaPrintState::Ready => 0,
                        PrusaPrintState::Finished => 1000,
                    };
                    Ok(PrusaLinkStatus { status: state, remaining_time, completion_tenths })
                },
            }
        } else if status == 408 || status == 504 {
            Err(PrusaLinkError::ConnectionTimeout)
        } else if status == 403 {
            Err(PrusaLinkError::InvalidCredentials)
        } else {
            Err(PrusaLinkError::InvalidResponse(status_error_text(status)))
        }
    }

    /// The line shown: while printing, glyph, completion and (unless hidden) the
    /// remaining time; in any other state, the state's glyph.
    pub fn line(&self, hide_remaining_time: bool) -> (r: String)
        ensures
            r@ == prusa_line(*self, hide_remaining_time),
    {
        let mut x = self.status.to_string();
        match self.status {
            PrusaPrintState::Printing => {
                x.append(" ");
                push_tenths(&mut x, self.completion_tenths as u128);
                x.append("%");
                if !hide_remaining_time {
                    x.append(" ");
                    push_remaining(&mut x, self.remaining_time);
                }
            },
            _ => {},
        }
        x
    }

    pub fn display(&self, hide_remaining_time: bool) -> (r: I3Display)
        ensures
            prusa_display(*self, hide_remaining_time, r),
    {
        let line = self.line(hide_remaining_time);
        let color = match self.status {
            PrusaPrintState::Attention => Some(I3StatusRustColorState::I3StatusRustStateWarning),
            PrusaPrintState::Finished => Some(I3StatusRustColorState::I3StatusRustStateGood),
            _ => None,
        };
        I3Display::new(None, line.clone(), line, color)
    }

    /// Decides what a poll shows: the credentials error when neither a token nor
    /// login and password are configured, whatever the poll gave; nothing when the
    /// printer is absent (no connection, or a reply saying the request timed out);
    /// the error's message when the poll failed otherwise; "Error: " and the message
    /// when the reply cannot be used; else the status display.
    pub fn get(command: &PrusaLinkArgs, fetched: Result<HttpReply<PrusaLinkJobResponse>, PrusaLinkError>) -> (r: Result<
        Option<I3Display>,
        I3DisplayError,
    >)
        ensures
            !prusa_has_credentials(*command) ==> r is Err && r->Err_0.message@
                == "No token or login/password provided"@,
            prusa_has_credentials(*command) && fetched is Err && prusa_is_absent(fetched->Err_0) ==> r is Ok
                && r->Ok_0 is None,
            prusa_has_credentials(*command) && fetched is Err && !prusa_is_absent(fetched->Err_0) ==> r is Err
                && r->Err_0.message@ == prusa_error_text(fetched->Err_0),
            prusa_has_credentials(*command) && fetched is Ok ==> exists|s: Result<PrusaLinkStatus, PrusaLinkError>|
                prusa_outcome(fetched->Ok_0.status, fetched->Ok_0.body, s) && match s {
                    Ok(st) => r is Ok && r->Ok_0 is Some && prusa_display(
                        st,
                        command.hide_remaining_time,
                        r->Ok_0->Some_0,
                    ),
                    Err(e) => if prusa_is_absent(e) {
                        r is Ok && r->Ok_0 is None
                    } else {
                        r is Err && r->Err_0.message@ == "Error: "@ + prusa_error_text(e)
                    },
                },
    {
        match Self::auth(command) {
            Ok(_) => {},
            Err(e) => {
                return Err(I3DisplayError { message: e.to_string() });
            },
        }
        let reply = match fetched {
            Ok(x) => x,
            Err(e) => {
                return match e {
                    PrusaLinkError::ConnectionRefused | PrusaLinkError::ConnectionTimeout => Ok(None),
                    _ => Err(I3DisplayError { message: e.to_string() }),
                };
            },
        };
        let ghost status = reply.status;
        let ghost body = reply.body;
        let res = Self::to_prusa_link_status(reply.status, reply.body);
        match res {
            Ok(st) => {
                let d = st.display(command.hide_remaining_time);
                Ok(Some(d))
            },
            Err(PrusaLinkError::ConnectionRefused) | Err(PrusaLinkError::ConnectionTimeout) => Ok(None),
            Err(e) => {
                let mut m = String::from_str("Error: ");
                let t = e.to_string();
                m.append(t.as_str());
                let r = Err(I3DisplayError { message: m });
                assert(prusa_outcome(status, body, res));
                r
            },
        }
    }
}

} // verus!
