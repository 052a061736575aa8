use i3_status_checks::display::I3StatusRustColorState;
use i3_status_checks::octoprint::{
    ApiProgress, OctoprintApiJobResponse, OctoprintArgs, OctoprintJobState, OctoprintStatus,
    OctoprintStatusError,
};
use i3_status_checks::prusa_link::{
    PrusaLinkArgs, PrusaLinkAuth, PrusaLinkError, PrusaLinkJob, PrusaLinkJobResponse, PrusaLinkStatus,
    PrusaPrintState, PrusaPrinter,
};
use i3_status_checks::remote::HttpReply;

fn prusa_args(hide_remaining_time: bool) -> PrusaLinkArgs {
    PrusaLinkArgs {
        url: "http://printer.local".to_string(),
        login: None,
        password: None,
        token: Some("SECRET-REDACTED".to_string()),
        hide_remaining_time,
    }
}

fn printing_response() -> PrusaLinkJobResponse {
    PrusaLinkJobResponse {
        job: Some(PrusaLinkJob { progress_tenths: 620, time_printing: 59544, time_remaining: 34320 }),
        printer: PrusaPrinter { state: PrusaPrintState::Printing },
    }
}

fn octoprint_args(hide_remaining_time: bool) -> OctoprintArgs {
    OctoprintArgs { apikey: "key".to_string(), url: "http://octo.local".to_string(), hide_remaining_time }
}

#[test]
fn prusa_printing_line_with_remaining_time() {
    let status = PrusaLinkStatus::to_prusa_link_status(200, Ok(printing_response())).ok().unwrap();
    assert_eq!(status.status, PrusaPrintState::Printing);
    assert_eq!(status.completion_tenths, 620);
    assert_eq!(status.remaining_time, 34320);
    let d = status.display(false);
    assert_eq!(d.long_line, "\u{f0e5b} 62.0% 9h32m");
    assert_eq!(d.short_line, d.long_line);
    assert!(d.color.is_none());
    assert_eq!(status.display(true).long_line, "\u{f0e5b} 62.0%");
}

#[test]
fn prusa_get_goes_through_the_whole_poll() {
    let reply = HttpReply { status: 200, body: Ok(printing_response()) };
    let d = PrusaLinkStatus::get(&prusa_args(false), Ok(reply)).ok().unwrap().unwrap();
    assert_eq!(d.long_line, "\u{f0e5b} 62.0% 9h32m");
}

#[test]
fn prusa_finished_and_attention_override_severity() {
    let finished = PrusaLinkJobResponse { job: None, printer: PrusaPrinter { state: PrusaPrintState::Finished } };
    let s = PrusaLinkStatus::to_prusa_link_status(200, Ok(finished)).ok().unwrap();
    assert_eq!(s.completion_tenths, 1000);
    assert_eq!(s.remaining_time, 0);
    let d = s.display(false);
    assert_eq!(d.long_line, "\u{f042b} \u{f058}");
    assert_eq!(d.color.unwrap().to_string(), "Good");

    let attention = PrusaLinkJobResponse {
        job: Some(PrusaLinkJob { progress_tenths: 100, time_printing: 5, time_remaining: 7 }),
        printer: PrusaPrinter { state: PrusaPrintState::Attention },
    };
    let s = PrusaLinkStatus::to_prusa_link_status(200, Ok(attention)).ok().unwrap();
    assert_eq!(s.completion_tenths, 100);
    assert!(matches!(s.display(false).color, Some(I3StatusRustColorState::I3StatusRustStateWarning)));

    let idle = PrusaLinkJobResponse { job: None, printer: PrusaPrinter { state: PrusaPrintState::Idle } };
    let s = PrusaLinkStatus::to_prusa_link_status(200, Ok(idle)).ok().unwrap();
    assert_eq!(s.completion_tenths, 0);
    assert!(s.display(false).color.is_none());
}

#[test]
fn prusa_job_state_without_job_is_invalid() {
    let stopped = PrusaLinkJobResponse { job: None, printer: PrusaPrinter { state: PrusaPrintState::Stopped } };
    match PrusaLinkStatus::to_prusa_link_status(200, Ok(stopped)) {
        Err(PrusaLinkError::InvalidResponse(m)) => assert_eq!(m, "no job data in state STOPPED"),
        _ => panic!("expected an invalid response"),
    }
    let reply = HttpReply {
        status: 200,
        body: Ok(PrusaLinkJobResponse { job: None, printer: PrusaPrinter { state: PrusaPrintState::Printing } }),
    };
    let e = PrusaLinkStatus::get(&prusa_args(false), Ok(reply)).err().unwrap();
    assert_eq!(e.message, "Error: Invalid response: no job data in state PRINTING");
}

#[test]
fn forbidden_is_an_auth_error_on_both_backends() {
    assert!(matches!(
        PrusaLinkStatus::to_prusa_link_status(403, Ok(printing_response())),
        Err(PrusaLinkError::InvalidCredentials)
    ));
    match OctoprintStatus::to_octoprint_status(403, Err("ignored".to_string())) {
        Err(OctoprintStatusError::InvalidApiKey(m)) => assert_eq!(m, "Connection forbidden: invalid api key?"),
        _ => panic!("expected an api key error"),
    }
    let reply = HttpReply { status: 403, body: Ok(printing_response()) };
    let e = PrusaLinkStatus::get(&prusa_args(false), Ok(reply)).err().unwrap();
    assert_eq!(e.message, "Error: No token or login/password provided");
}

#[test]
fn absent_server_shows_nothing() {
    assert!(PrusaLinkStatus::get(&prusa_args(false), Err(PrusaLinkError::ConnectionRefused)).ok().unwrap().is_none());
    assert!(PrusaLinkStatus::get(&prusa_args(false), Err(PrusaLinkError::ConnectionTimeout)).ok().unwrap().is_none());
    assert!(OctoprintStatus::get(&octoprint_args(false), Err(OctoprintStatusError::ConnectionRefused))
        .ok()
        .unwrap()
        .is_none());
    let e = PrusaLinkStatus::get(&prusa_args(false), Err(PrusaLinkError::InvalidResponse("boom".to_string())))
        .err()
        .unwrap();
    assert_eq!(e.message, "Invalid response: boom");
}

#[test]
fn other_codes_carry_the_status_line() {
    match PrusaLinkStatus::to_prusa_link_status(404, Ok(printing_response())) {
        Err(PrusaLinkError::InvalidResponse(m)) => assert_eq!(m, "Error: 404 Not Found"),
        _ => panic!("expected an invalid response"),
    }
    match OctoprintStatus::to_octoprint_status(500, Err("x".to_string())) {
        Err(e) => assert_eq!(e.to_string(), "Invalid response: Error: 500 Internal Server Error"),
        _ => panic!("expected an invalid response"),
    }
    assert!(matches!(
        OctoprintStatus::to_octoprint_status(504, Err("x".to_string())),
        Err(OctoprintStatusError::ConnectionTimeout)
    ));
}

#[test]
fn undecodable_body_is_a_deserialization_error() {
    match PrusaLinkStatus::to_prusa_link_status(200, Err("missing field `printer`".to_string())) {
        Err(e) => assert_eq!(e.to_string(), "Deserialization error: missing field `printer`"),
        _ => panic!("expected a deserialization error"),
    }
}

#[test]
fn credentials_choose_the_scheme() {
    assert!(matches!(PrusaLinkStatus::auth(&prusa_args(false)), Ok(PrusaLinkAuth::ApiKey(_))));
    let digest = PrusaLinkArgs {
        url: "u".to_string(),
        login: Some("maker".to_string()),
        password: Some("pw".to_string()),
        token: None,
        hide_remaining_time: false,
    };
    match PrusaLinkStatus::auth(&digest) {
        Ok(PrusaLinkAuth::Digest { login, password }) => {
            assert_eq!(login, "maker");
            assert_eq!(password, "pw");
        },
        _ => panic!("expected digest authentication"),
    }
    let none = PrusaLinkArgs { url: "u".to_string(), login: Some("maker".to_string()), password: None, token: None, hide_remaining_time: false };
    match PrusaLinkStatus::auth(&none) {
        Err(e) => assert_eq!(e.to_string(), "No token or login/password provided"),
        _ => panic!("expected a credentials error"),
    }
    assert_eq!(PrusaLinkStatus::status_url(&"http://p".to_string()), "http://p/api/v1/status");
    assert_eq!(OctoprintStatus::job_url(&"http://o".to_string()), "http://o/api/job");
}

#[test]
fn send_failures_are_classified() {
    assert!(matches!(PrusaLinkError::from_send_failure(true, true, "t".to_string()), PrusaLinkError::ConnectionTimeout));
    assert!(matches!(PrusaLinkError::from_send_failure(false, true, "c".to_string()), PrusaLinkError::ConnectionRefused));
    assert!(matches!(
        OctoprintStatusError::from_send_failure(false, false, "other".to_string()),
        OctoprintStatusError::InvalidResponse(_)
    ));
}

#[test]
fn octoprint_printing_and_other_states() {
    let body = OctoprintApiJobResponse {
        progress: ApiProgress { completion_tenths: Some(1), print_time_left: Some(1959) },
        state: OctoprintJobState::Printing,
    };
    let reply = HttpReply { status: 200, body: Ok(body) };
    let d = OctoprintStatus::get(&octoprint_args(false), Ok(reply)).ok().unwrap().unwrap();
    assert_eq!(d.long_line, "0.1% 32m39s");
    let body = OctoprintApiJobResponse {
        progress: ApiProgress { completion_tenths: None, print_time_left: None },
        state: OctoprintJobState::Offline,
    };
    let s = OctoprintStatus::to_octoprint_status(200, Ok(body)).ok().unwrap();
    assert_eq!(s.completion_tenths, 0);
    assert_eq!(s.remaining_time, 0);
    assert_eq!(s.display(false).long_line, "Offline");
    let s = OctoprintStatus { status: OctoprintJobState::Printing, remaining_time: 0, completion_tenths: 1000 };
    assert_eq!(s.display(false).long_line, "100.0% 0s");
    assert_eq!(s.display(true).long_line, "100.0%");
    let s = OctoprintStatus { status: OctoprintJobState::Printing, remaining_time: 90061, completion_tenths: 5 };
    assert_eq!(s.line(false), "0.5% 1d1h1m1s");
}

#[test]
fn every_error_has_its_message() {
    assert_eq!(PrusaLinkError::InvalidConnection("tls".to_string()).to_string(), "Invalid connection: tls");
    assert_eq!(PrusaLinkError::ConnectionTimeout.to_string(), "Connection timeout");
    assert_eq!(PrusaLinkError::ConnectionRefused.to_string(), "Connection refused");
    assert_eq!(OctoprintStatusError::InvalidConnection("tls".to_string()).to_string(), "Invalid connection: tls");
    assert_eq!(OctoprintStatusError::InvalidApiKey("bad".to_string()).to_string(), "Invalid api key: bad");
    assert_eq!(OctoprintStatusError::ConnectionTimeout.to_string(), "Connection timeout");
    assert_eq!(OctoprintStatusError::ConnectionRefused.to_string(), "Connection refused");
    match OctoprintStatus::to_octoprint_status(200, Err("expected value".to_string())) {
        Err(e) => assert_eq!(e.to_string(), "Deserialization error: expected value"),
        _ => panic!("expected a deserialization error"),
    }
    let e = OctoprintStatus::get(&octoprint_args(false), Err(OctoprintStatusError::InvalidApiKey("bad".to_string())))
        .err()
        .unwrap();
    assert_eq!(e.message, "Invalid api key: bad");
    let reply = HttpReply { status: 418, body: Err("x".to_string()) };
    let e = OctoprintStatus::get(&octoprint_args(false), Ok(reply)).err().unwrap();
    assert_eq!(e.message, "Error: Invalid response: Error: 418 I'm a teapot");
}

#[test]
fn negative_remaining_time_shows_zero() {
    let s = PrusaLinkStatus { status: PrusaPrintState::Printing, remaining_time: -5, completion_tenths: 999 };
    assert_eq!(s.line(false), "\u{f0e5b} 99.9% 0s");
}

#[test]
fn state_glyphs() {
    assert_eq!(PrusaPrintState::Busy.to_string(), "\u{f18b9}");
    assert_eq!(PrusaPrintState::Ready.to_string(), "\u{f042b} \u{f04b2}");
    assert_eq!(PrusaPrintState::Paused.api_name(), "PAUSED");
    assert_eq!(OctoprintJobState::Operational.to_string(), "\u{f04b2}");
    assert_eq!(OctoprintJobState::Unssupported.to_string(), "Unssupported");
}

#[test]
fn timeout_replies_show_nothing() {
    let reply = HttpReply { status: 408, body: Ok(printing_response()) };
    assert!(PrusaLinkStatus::get(&prusa_args(false), Ok(reply)).ok().unwrap().is_none());
    let reply = HttpReply { status: 504, body: Err("x".to_string()) };
    assert!(OctoprintStatus::get(&octoprint_args(false), Ok(reply)).ok().unwrap().is_none());
}

#[test]
fn octoprint_job_without_completion_is_invalid() {
    for state in [OctoprintJobState::Printing, OctoprintJobState::Pausing, OctoprintJobState::Paused] {
        let body = OctoprintApiJobResponse {
            progress: ApiProgress { completion_tenths: None, print_time_left: Some(10) },
            state,
        };
        match OctoprintStatus::to_octoprint_status(200, Ok(body)) {
            Err(OctoprintStatusError::InvalidResponse(m)) => {
                assert_eq!(m, format!("no completion in state {}", state.api_name()))
            }
            _ => panic!("expected an invalid response"),
        }
    }
    let body = OctoprintApiJobResponse {
        progress: ApiProgress { completion_tenths: None, print_time_left: None },
        state: OctoprintJobState::Printing,
    };
    let e = OctoprintStatus::get(&octoprint_args(false), Ok(HttpReply { status: 200, body: Ok(body) })).err().unwrap();
    assert_eq!(e.message, "Error: Invalid response: no completion in state Printing");
}

#[test]
fn prusa_get_without_credentials_fails_first() {
    let args = PrusaLinkArgs { url: "u".to_string(), login: Some("maker".to_string()), password: None, token: None, hide_remaining_time: false };
    let reply = HttpReply { status: 200, body: Ok(printing_response()) };
    let e = PrusaLinkStatus::get(&args, Ok(reply)).err().unwrap();
    assert_eq!(e.message, "No token or login/password provided");
    let e = PrusaLinkStatus::get(&args, Err(PrusaLinkError::ConnectionRefused)).err().unwrap();
    assert_eq!(e.message, "No token or login/password provided");
}
