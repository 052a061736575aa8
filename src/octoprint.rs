//! The OctoPrint backend: classification of a poll of `/api/job`, the projection
//! of its payload into a job status, and the display of that status.
use vstd::prelude::*;
use vstd::string::StringExecFns;

use crate::display::{I3Display, I3DisplayError};
use crate::remote::{push_remaining, remaining_text, status_error_text, status_text, HttpReply};
use crate::text::{push_tenths, tenths_text};

verus! {

/// Options of the OctoPrint check: API key, base URL, whether to hide the remaining time.
pub struct OctoprintArgs {
    pub apikey: String,
    pub url: String,
    pub hide_remaining_time: bool,
}

/// The payload of `/api/job`, as far as the status needs it.
pub struct OctoprintApiJobResponse {
    pub progress: ApiProgress,
    pub state: OctoprintJobState,
}

/// Progress of the job: completion in tenths of a percent, time left in seconds.
#[derive(Clone, Copy, Debug, PartialEq, Eq, Structural)]
pub struct ApiProgress {
    pub completion_tenths: Option<u64>,
    pub print_time_left: Option<i64>,
}

/// Job states reported by OctoPrint.
#[derive(Clone, Copy, Debug, PartialEq, Eq, Structural)]
pub enum OctoprintJobState {
    Operational,
    Printing,
    Pausing,
    Paused,
    Cancelling,
    Error,
    Offline,
    Unssupported,
}

/// The text shown for each state.
pub open spec fn octoprint_state_text(s: OctoprintJobState) -> Seq<char> {
    match s {
        OctoprintJobState::Operational => "\u{f04b2}"@,
        OctoprintJobState::Printing => "Printing"@,
        OctoprintJobState::Pausing => "\u{f28b}"@,
        OctoprintJobState::Paused => "\u{f28b}"@,
        OctoprintJobState::Cancelling => "\u{f28d}"@,
        OctoprintJobState::Error => "\u{ea87}"@,
        OctoprintJobState::Offline => "Offline"@,
        OctoprintJobState::Unssupported => "Unssupported"@,
    }
}

/// The state's name in the API.
pub open spec fn octoprint_state_name(s: OctoprintJobState) -> Seq<char> {
    match s {
        OctoprintJobState::Operational => "Operational"@,
        OctoprintJobState::Printing => "Printing"@,
        OctoprintJobState::Pausing => "Pausing"@,
        OctoprintJobState::Paused => "Paused"@,
        OctoprintJobState::Cancelling => "Cancelling"@,
        OctoprintJobState::Error => "Error"@,
        OctoprintJobState::Offline => "Offline"@,
        OctoprintJobState::Unssupported => "Unssupported"@,
    }
}

/// States in which a job is under way, so that its completion is reported.
pub open spec fn needs_progress(s: OctoprintJobState) -> bool {
    s == OctoprintJobState::Printing || s == OctoprintJobState::Pausing || s == OctoprintJobState::Paused
}

impl OctoprintJobState {
    /// The state's name in the API ("Printing").
    pub fn api_name(&self) -> (r: String)
        ensures
            r@ == octoprint_state_name(*self),
    {
        match self {
            OctoprintJobState::Operational => String::from_str("Operational"),
            OctoprintJobState::Printing => String::from_str("Printing"),
            OctoprintJobState::Pausing => String::from_str("Pausing"),
            OctoprintJobState::Paused => String::from_str("Paused"),
            OctoprintJobState::Cancelling => String::from_str("Cancelling"),
            OctoprintJobState::Error => String::from_str("Error"),
            OctoprintJobState::Offline => String::from_str("Offline"),
            OctoprintJobState::Unssupported => String::from_str("Unssupported"),
        }
    }

    /// The text shown for the state.
    pub fn to_string(&self) -> (r: String)
        ensures
            r@ == octoprint_state_text(*self),
    {
        match self {
            OctoprintJobState::Operational => String::from_str("\u{f04b2}"),
            OctoprintJobState::Printing => String::from_str("Printing"),
            OctoprintJobState::Pausing => String::from_str("\u{f28b}"),
            OctoprintJobState::Paused => String::from_str("\u{f28b}"),
            OctoprintJobState::Cancelling => String::from_str("\u{f28d}"),
            OctoprintJobState::Error => String::from_str("\u{ea87}"),
            OctoprintJobState::Offline => String::from_str("Offline"),
            OctoprintJobState::Unssupported => String::from_str("Unssupported"),
        }
    }
}

/// A job status: state, remaining seconds, completion in tenths of a percent.
#[derive(Clone, Copy, Debug, PartialEq, Eq, Structural)]
pub struct OctoprintStatus {
    pub status: OctoprintJobState,
    pub remaining_time: i64,
    pub completion_tenths: u64,
}

/// Why a poll gave no status.
#[derive(Debug)]
pub enum OctoprintStatusError {
    ConnectionRefused,
    ConnectionTimeout,
    InvalidApiKey(String),
    InvalidResponse(String),
    InvalidConnection(String),
    DeserializationError(String),
}

pub open spec fn octoprint_error_text(e: OctoprintStatusError) -> Seq<char> {
    match e {
        OctoprintStatusError::ConnectionRefused => "Connection refused"@,
        OctoprintStatusError::InvalidApiKey(x) => "Invalid api key: "@ + x@,
        OctoprintStatusError::InvalidResponse(x) => "Invalid response: "@ + x@,
        OctoprintStatusError::InvalidConnection(x) => "Invalid connection: "@ + x@,
        OctoprintStatusError::DeserializationError(x) => "Deserialization error: "@ + x@,
        OctoprintStatusError::ConnectionTimeout => "Connection timeout"@,
    }
}

/// Whether the error means that the server is not there (off or unreachable).
pub open spec fn octoprint_is_absent(e: OctoprintStatusError) -> bool {
    e is ConnectionRefused || e is ConnectionTimeout
}

impl OctoprintStatusError {
    /// The message shown for the error.
    pub fn to_string(&self) -> (r: String)
        ensures
            r@ == octoprint_error_text(*self),
    {
        match self {
            OctoprintStatusError::ConnectionRefused => String::from_str("Connection refused"),
            OctoprintStatusError::InvalidApiKey(x) => {
                let mut r = String::from_str("Invalid api key: ");
                r.append(x.as_str());
                r
            },
            OctoprintStatusError::InvalidResponse(x) => {
                let mut r = String::from_str("Invalid response: ");
                r.append(x.as_str());
                r
            },
            OctoprintStatusError::InvalidConnection(x) => {
                let mut r = String::from_str("Invalid connection: ");
                r.append(x.as_str());
                r
            },
            OctoprintStatusError::DeserializationError(x) => {
                let mut r = String::from_str("Deserialization error: ");
                r.append(x.as_str());
                r
            },
            OctoprintStatusError::ConnectionTimeout => String::from_str("Connection timeout"),
        }
    }

    /// Classifies a request that got no reply: a timeout, a refused connection,
    /// or anything else with its message.
    pub fn from_send_failure(is_timeout: bool, is_connect: bool, message: String) -> (r: OctoprintStatusError)
        ensures
            is_timeout ==> r is ConnectionTimeout,
            !is_timeout && is_connect ==> r is ConnectionRefused,
            !is_timeout && !is_connect ==> r is InvalidResponse && r->InvalidResponse_0 == message,
    {
        if is_timeout {
            OctoprintStatusError::ConnectionTimeout
        } else if is_connect {
            OctoprintStatusError::ConnectionRefused
        } else {
            OctoprintStatusError::InvalidResponse(message)
        }
    }
}

/// What a poll of the job endpoint yields, given its status code and decoded body.
pub open spec fn octoprint_outcome(
    code: u16,
    body: Result<OctoprintApiJobResponse, String>,
    r: Result<OctoprintStatus, OctoprintStatusError>,
) -> bool {
    if code == 200 {
        match body {
            Err(e) => r is Err && r->Err_0 is DeserializationError && r->Err_0->DeserializationError_0@
                == e@,
            Ok(content) => if needs_progress(content.state) && content.progress.completion_tenths.is_none() {
                r is Err && r->Err_0 is InvalidResponse && r->Err_0->InvalidResponse_0@
                    == "no completion in state "@ + octoprint_state_name(content.state)
            } else {
                r == Ok::<OctoprintStatus, OctoprintStatusError>(
                    OctoprintStatus {
                        status: content.state,
                        completion_tenths: match content.progress.completion_tenths {
                            Some(c) => c,
                            None => 0,
                        },
                        remaining_time: match content.progress.print_time_left {
                            Some(t) => t,
                            None => 0,
                        },
                    },
                )
            },
        }
    } else if code == 408 || code == 504 {
        r is Err && r->Err_0 is ConnectionTimeout
    } else if code == 403 {
        r is Err && r->Err_0 is InvalidApiKey && r->Err_0->InvalidApiKey_0@
            == "Connection forbidden: invalid api key?"@
    } else {
        r is Err && r->Err_0 is InvalidResponse && r->Err_0->InvalidResponse_0@ == "Error: "@ + status_text(
            code,
        )
    }
}

/// The line shown for a status.
pub open spec fn octoprint_line(s: OctoprintStatus, hide_remaining_time: bool) -> Seq<char> {
    if s.status == OctoprintJobState::Printing {
        let base = tenths_text(s.completion_tenths as nat) + "%"@;
        if hide_remaining_time {
            base
        } else {
            base + " "@ + remaining_text(s.remaining_time)
        }
    } else {
        octoprint_state_text(s.status)
    }
}

/// The display of a status: no icon, the same long and short line, no colour.
pub open spec fn octoprint_display(s: OctoprintStatus, hide_remaining_time: bool, d: I3Display) -> bool {
    &&& d.icon.is_none()
    &&& d.long_line@ == octoprint_line(s, hide_remaining_time)
    &&& d.short_line@ == d.long_line@
    &&& d.color.is_none()
}

impl OctoprintStatus {
    /// The address polled: the base URL followed by `/api/job`.
    pub fn job_url(url: &String) -> (r: String)
        ensures
            r@ == url@ + "/api/job"@,
    {
        let mut r = url.clone();
        r.append("/api/job");
        r
    }

    /// Turns a reply into a status: a 200 reply's body is projected, a missing time
    /// left reading as zero, and a missing completion as zero outside the states of
    /// a job under way (in those it is an invalid response); other codes are errors.
    pub fn to_octoprint_status(status: u16, body: Result<OctoprintApiJobResponse, String>) -> (r: Result<
        OctoprintStatus,
        OctoprintStatusError,
    >)
        ensures
            octoprint_outcome(status, body, r),
    {
        if status == 200 {
            match body {
                Err(e) => Err(OctoprintStatusError::DeserializationError(e)),
                Ok(content) => {
                    let completion_tenths = match content.progress.completion_tenths {
                        Some(c) => c,
                        None => match content.state {
                            OctoprintJobState::Printing | OctoprintJobState::Pausing | OctoprintJobState::Paused => {
                                let mut m = String::from_str("no completion in state ");
                                let name = content.state.api_name();
                                m.append(name.as_str());
                                return Err(OctoprintStatusError::InvalidResponse(m));
                            },
                            _ => 0,
                        },
                    };
                    Ok(
                        OctoprintStatus {
                            status: content.state,
                            completion_tenths,
                            remaining_time: match content.progress.print_time_left {
                                Some(t) => t,
                                None => 0,
                            },
                        },
                    )
                },
            }
        } else if status == 408 || status == 504 {
            Err(OctoprintStatusError::ConnectionTimeout)
        } else if status == 403 {
            Err(OctoprintStatusError::InvalidApiKey(String::from_str("Connection forbidden: invalid api key?")))
        } else {
            Err(OctoprintStatusError::InvalidResponse(status_error_text(status)))
        }
    }

    /// The line shown: while printing, completion and (unless hidden) the remaining
    /// time; in any other state, the state's text.
    pub fn line(&self, hide_remaining_time: bool) -> (r: String)
        ensures
            r@ == octoprint_line(*self, hide_remaining_time),
    {
        match self.status {
            OctoprintJobState::Printing => {
                let mut x = String::new();
                push_tenths(&mut x, self.completion_tenths as u128);
                x.append("%");
                if !hide_remaining_time {
                    x.append(" ");
                    push_remaining(&mut x, self.remaining_time);
                }
                x
            },
            _ => self.status.to_string(),
        }
    }

    pub fn display(&self, hide_remaining_time: bool) -> (r: I3Display)
        ensures
            octoprint_display(*self, hide_remaining_time, r),
    {
        let line = self.line(hide_remaining_time);
        I3Display::new(None, line.clone(), line, None)
    }

    /// Decides what a poll shows: nothing when the server is absent (no connection,
    /// or a reply saying the request timed out), the error's message when the poll
    /// failed otherwise, "Error: " and the message when the reply cannot be used,
    /// else the status display.
    pub fn get(
        command: &OctoprintArgs,
        fetched: Result<HttpReply<OctoprintApiJobResponse>, OctoprintStatusError>,
    ) -> (r: Result<Option<I3Display>, I3DisplayError>)
        ensures
            fetched is Err && octoprint_is_absent(fetched->Err_0) ==> r is Ok && r->Ok_0 is None,
            fetched is Err && !octoprint_is_absent(fetched->Err_0) ==> r is Err && r->Err_0.message@
                == octoprint_error_text(fetched->Err_0),
            fetched is Ok ==> exists|s: Result<OctoprintStatus, OctoprintStatusError>|
                octoprint_outcome(fetched->Ok_0.status, fetched->Ok_0.body, s) && match s {
                    Ok(st) => r is Ok && r->Ok_0 is Some && octoprint_display(
                        st,
                        command.hide_remaining_time,
                        r->Ok_0->Some_0,
                    ),
                    Err(e) => if octoprint_is_absent(e) {
                        r is Ok && r->Ok_0 is None
                    } else {
                        r is Err && r->Err_0.message@ == "Error: "@ + octoprint_error_text(e)
                    },
                },
    {
        let reply = match fetched {
            Ok(x) => x,
            Err(e) => {
                return match e {
                    OctoprintStatusError::ConnectionRefused | OctoprintStatusError::ConnectionTimeout => Ok(
                        None,
                    ),
                    _ => Err(I3DisplayError { message: e.to_string() }),
                };
            },
        };
        let res = Self::to_octoprint_status(reply.status, reply.body);
        match res {
            Ok(st) => Ok(Some(st.display(command.hide_remaining_time))),
            Err(OctoprintStatusError::ConnectionRefused) | Err(OctoprintStatusError::ConnectionTimeout) => Ok(None),
            Err(e) => {
                let mut m = String::from_str("Error: ");
                let t = e.to_string();
                m.append(t.as_str());
                Err(I3DisplayError { message: m })
            },
        }
    }
}

} // verus!
