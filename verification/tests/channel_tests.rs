//! The channels' decision logic: the command channel's one silent
//! reconnect-and-retry, the idle loop's cancellation handling, the
//! handshake check and the connect retry budget.

use mpdris::channel::{
    connect_gives_up, idle_step, should_synthesize_position, validate_greeting, IdleAction,
    IdleEvent, RequestFlow, RequestOutcome,
};
use mpdris::error::{Error, ErrorKind};

fn pairs(ps: &[(&str, &str)]) -> Vec<(String, String)> {
    ps.iter()
        .map(|(k, v)| (String::from(*k), String::from(*v)))
        .collect()
}

fn transport_error() -> Error {
    Error::new(ErrorKind::IO, "connection reset")
}

fn application_error() -> Error {
    Error::new(ErrorKind::WrongArgument, "bad argument")
}

#[test]
fn reconnect_and_retry_delivers_the_second_attempt() {
    let mut flow = RequestFlow::new();
    // The first attempt fails with a transport error: one silent retry.
    match flow.on_response(Err(transport_error())) {
        RequestOutcome::Retry => {}
        RequestOutcome::Done(_) => panic!("a failed attempt must not deliver"),
        RequestOutcome::Failed(e) => panic!("the first transport failure must retry, got {:?}", e.kind),
    }
    // The retried attempt succeeds: the caller sees only the result.
    let data = pairs(&[("volume", "50")]);
    match flow.on_response(Ok(data.clone())) {
        RequestOutcome::Done(d) => assert_eq!(d, data),
        _ => panic!("a successful retry must deliver"),
    }
}

#[test]
fn second_transport_failure_propagates() {
    let mut flow = RequestFlow::new();
    assert!(matches!(
        flow.on_response(Err(transport_error())),
        RequestOutcome::Retry
    ));
    match flow.on_response(Err(transport_error())) {
        RequestOutcome::Failed(e) => assert_eq!(e.kind, ErrorKind::IO),
        _ => panic!("the second failure must propagate"),
    }
}

#[test]
fn application_errors_are_never_retried() {
    let mut flow = RequestFlow::new();
    match flow.on_response(Err(application_error())) {
        RequestOutcome::Failed(e) => assert_eq!(e.kind, ErrorKind::WrongArgument),
        _ => panic!("an application rejection must propagate at once"),
    }
}

#[test]
fn idle_cancellation_abandons_the_wait() {
    // A pending response exists, but the cancellation wins the race: the
    // loop must not reconcile it, and must wait for the reconnect instead.
    match idle_step(IdleEvent::Canceled) {
        IdleAction::AwaitReconnect => {}
        IdleAction::Reconcile(_) => panic!("a cancelled wait must not be processed"),
        IdleAction::Reissue => panic!("a cancelled wait must defer to the reconnect"),
    }
}

#[test]
fn idle_response_is_reconciled() {
    let data = pairs(&[("changed", "player")]);
    match idle_step(IdleEvent::Response(data.clone())) {
        IdleAction::Reconcile(d) => assert_eq!(d, data),
        _ => panic!("an idle response must be reconciled"),
    }
}

#[test]
fn idle_failure_reissues_the_poll() {
    assert!(matches!(
        idle_step(IdleEvent::Failed(transport_error())),
        IdleAction::Reissue
    ));
}

#[test]
fn position_synthesis_needs_player_first_and_seeking() {
    let player_first = pairs(&[("changed", "player")]);
    let playlist_first = pairs(&[("changed", "playlist"), ("changed", "player")]);
    assert!(should_synthesize_position(&player_first, true));
    assert!(!should_synthesize_position(&player_first, false));
    assert!(!should_synthesize_position(&playlist_first, true));
    assert!(!should_synthesize_position(&pairs(&[]), true));
}

#[test]
fn greeting_must_start_with_the_banner() {
    assert!(validate_greeting("OK MPD 0.23.5").is_ok());
    assert!(validate_greeting("OK MPD").is_ok());
    let err = validate_greeting("HTTP/1.1 400 Bad Request").unwrap_err();
    assert_eq!(err.kind, ErrorKind::InvalidConnection);
    let err = validate_greeting("OK").unwrap_err();
    assert_eq!(err.kind, ErrorKind::InvalidConnection);
}

#[test]
fn connect_retry_budget() {
    // A positive budget gives up once the failures exceed it.
    assert!(!connect_gives_up(3, 1));
    assert!(!connect_gives_up(3, 3));
    assert!(connect_gives_up(3, 4));
    // A non-positive budget retries without bound.
    assert!(!connect_gives_up(-1, 1000));
    assert!(!connect_gives_up(0, 1000));
}
