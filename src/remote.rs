//! What the printer backends share: the reply of an HTTP poll, the status line
//! of its code, and the compound duration of a remaining time.
use vstd::prelude::*;
use vstd::string::StringExecFns;

use crate::octoprint::{octoprint_outcome, OctoprintApiJobResponse, OctoprintStatus, OctoprintStatusError};
use crate::prusa_link::{needs_job, prusa_outcome, PrusaLinkError, PrusaLinkJobResponse, PrusaLinkStatus};
use crate::text::{decimal, push_decimal};

verus! {

/// The outcome of one poll that reached the server: its status code, and the body
/// decoded into the backend's schema, or the decoder's message.
pub struct HttpReply<T> {
    pub status: u16,
    pub body: Result<T, String>,
}

/// The reason phrase that the HTTP library writes after a status code ("Not Found").
pub uninterp spec fn reason_phrase(code: u16) -> Seq<char>;

/// The text of a status code as the HTTP library writes it: the code, a space,
/// and its reason phrase ("404 Not Found").
pub open spec fn status_line(code: u16) -> Seq<char> {
    decimal(code as nat) + " "@ + reason_phrase(code)
}

/// Relies on the Display of reqwest::StatusCode (http's StatusCode): the code in
/// decimal, a space, and a reason phrase that depends on the code alone.
#[verifier::external_body]
fn status_code_text(code: u16) -> (r: String)
    requires
        100 <= code < 1000,
    ensures
        r@ == decimal(code as nat) + " "@ + reason_phrase(code),
{
    match reqwest::StatusCode::from_u16(code) {
        Ok(s) => s.to_string(),
        Err(_) => String::new(),
    }
}

/// The status text used in messages: the library's status line for a valid code,
/// the bare number otherwise.
pub open spec fn status_text(code: u16) -> Seq<char> {
    if 100 <= code < 1000 {
        status_line(code)
    } else {
        decimal(code as nat)
    }
}

/// "Error: " followed by the status text of `code`.
pub fn status_error_text(code: u16) -> (r: String)
    ensures
        r@ == "Error: "@ + status_text(code),
{
    let mut r = String::from_str("Error: ");
    if 100 <= code && code < 1000 {
        let t = status_code_text(code);
        r.append(t.as_str());
    } else {
        push_decimal(&mut r, code as u128);
    }
    r
}

/// `k` followed by its unit letter, or nothing when `k` is zero.
pub open spec fn dhms_part(k: nat, unit: Seq<char>) -> Seq<char> {
    if k == 0 {
        Seq::empty()
    } else {
        decimal(k) + unit
    }
}

/// A number of seconds as days, hours, minutes and seconds, each written only when
/// non-zero ("9h32m"); "0s" for zero.
pub open spec fn dhms_text(seconds: nat) -> Seq<char> {
    if seconds == 0 {
        "0s"@
    } else {
        let rest = seconds % 86400;
        dhms_part(seconds / 86400, "d"@) + dhms_part(rest / 3600, "h"@) + dhms_part(rest % 3600 / 60, "m"@)
            + dhms_part(rest % 3600 % 60, "s"@)
    }
}

/// Relies on compound_duration::format_dhms, called with a `usize` so that no bits
/// are dropped: days, hours, minutes and seconds in decimal, each followed by its
/// letter and left out when zero; "0s" for zero.
#[verifier::external_body]
fn format_dhms(seconds: usize) -> (r: String)
    ensures
        r@ == dhms_text(seconds as nat),
{
    compound_duration::format_dhms(seconds)
}

/// A remaining time in seconds as shown: a negative one is shown as zero, and one
/// beyond what a `usize` holds as `usize::MAX` (which no `i64` exceeds on 64-bit targets).
pub open spec fn remaining_text(seconds: i64) -> Seq<char> {
    dhms_text(
        if seconds <= 0 {
            0
        } else if seconds as int > usize::MAX as int {
            usize::MAX as nat
        } else {
            seconds as nat
        },
    )
}

/// Appends a remaining time as shown.
pub fn push_remaining(s: &mut String, seconds: i64)
    ensures
        final(s)@ == old(s)@ + remaining_text(seconds),
{
    let secs: usize = if seconds <= 0 {
        0
    } else if seconds as u64 > usize::MAX as u64 {
        usize::MAX
    } else {
        seconds as usize
    };
    let t = format_dhms(secs);
    s.append(t.as_str());
}

/// A 403 reply is an authentication error whatever the backend and whatever the body.
pub proof fn forbidden_is_rejected_by_every_backend(
    octoprint_body: Result<OctoprintApiJobResponse, String>,
    octoprint: Result<OctoprintStatus, OctoprintStatusError>,
    prusa_body: Result<PrusaLinkJobResponse, String>,
    prusa: Result<PrusaLinkStatus, PrusaLinkError>,
)
    requires
        octoprint_outcome(403, octoprint_body, octoprint),
        prusa_outcome(403, prusa_body, prusa),
    ensures
        octoprint is Err && octoprint->Err_0 is InvalidApiKey,
        prusa is Err && prusa->Err_0 is InvalidCredentials,
{
}

/// A 200 reply whose state needs a job but that carries none is an invalid
/// response, not a status filled with zeros.
pub proof fn missing_job_is_invalid_response(content: PrusaLinkJobResponse, prusa: Result<PrusaLinkStatus, PrusaLinkError>)
    requires
        needs_job(content.printer.state),
        content.job is None,
        prusa_outcome(200, Ok(content), prusa),
    ensures
        prusa is Err && prusa->Err_0 is InvalidResponse,
{
}

} // verus!
