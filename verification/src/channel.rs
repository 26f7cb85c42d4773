//! The decision logic of the two connection channels.
//!
//! The command channel serializes request/response cycles and, on a
//! transport or framing failure, silently reconnects and retries the same
//! request exactly once; an application `ACK` error is never retried.  The
//! idle channel long-polls the backend and races the poll against a
//! cancellation signal; a cancelled wait is abandoned, never half-read.
//!
//! The channels' I/O lives outside this crate: the caller performs each
//! request and hands the outcome back to these functions, which say what
//! to do next.

use vstd::prelude::*;
use vstd::string::*;

use crate::error::{spec_is_application_kind, Error, ErrorKind};
use crate::strutil::{eq_str, seq_starts_with, starts_with_str};

verus! {

/// What the command channel does after one request attempt.
#[derive(PartialEq, Eq, Structural, Debug, Clone, Copy)]
pub enum StepVerdict {
    /// Hand the response to the caller.
    Deliver,
    /// Reconnect silently and send the same request once more.
    RetryOnce,
    /// Give the error to the caller.
    Fail,
}

/// The verdict on one request attempt: a response is delivered; a
/// transport or framing failure earns one silent reconnect-and-retry; an
/// application rejection, or a second failure of any kind, is final.
pub open spec fn spec_request_step(already_retried: bool, failure: Option<ErrorKind>) -> StepVerdict {
    match failure {
        None => StepVerdict::Deliver,
        Some(kind) => {
            if spec_is_application_kind(kind) {
                StepVerdict::Fail
            } else if !already_retried {
                StepVerdict::RetryOnce
            } else {
                StepVerdict::Fail
            }
        },
    }
}

/// What the command channel answers for one request attempt.
pub enum RequestOutcome {
    /// The response for the caller.
    Done(Vec<(String, String)>),
    /// Reconnect and send the same request once more.
    Retry,
    /// The error for the caller.
    Failed(Error),
}

/// One in-flight request of the command channel: remembers whether its one
/// silent retry has been spent.
pub struct RequestFlow {
    retried: bool,
}

impl RequestFlow {
    /// Whether the one silent retry has been spent.
    pub closed spec fn spent_retry(&self) -> bool {
        self.retried
    }

    pub fn new() -> (r: Self)
        ensures
            !r.spent_retry(),
    {
        RequestFlow { retried: false }
    }

    /// Judges one request attempt, exactly as [`spec_request_step`] says:
    /// a success is delivered; the first transport or framing failure asks
    /// the caller to reconnect and resend; an application rejection, and
    /// any failure after the retry, propagates.
    pub fn on_response(&mut self, response: Result<Vec<(String, String)>, Error>) -> (r:
        RequestOutcome)
        ensures
            match response {
                Ok(data) => r matches RequestOutcome::Done(d) && d == data && *final(self) == *old(
                    self,
                ),
                Err(e) => {
                    match spec_request_step(old(self).spent_retry(), Some(e.kind)) {
                        StepVerdict::RetryOnce => r is Retry && final(self).spent_retry(),
                        StepVerdict::Fail => (r matches RequestOutcome::Failed(e2) && e2 == e)
                            && *final(self) == *old(self),
                        StepVerdict::Deliver => false,
                    }
                },
            },
    {
        match response {
            Ok(data) => RequestOutcome::Done(data),
            Err(e) => {
                if e.kind.is_application() {
                    RequestOutcome::Failed(e)
                } else if !self.retried {
                    self.retried = true;
                    RequestOutcome::Retry
                } else {
                    RequestOutcome::Failed(e)
                }
            },
        }
    }
}

/// The command channel's retry policy, stated whole: the first transport
/// failure of a request is retried once after a reconnect, the retried
/// attempt's success is delivered to the caller as if nothing had failed,
/// a failure after the retry propagates, and an application rejection
/// propagates at once, retried never.
pub proof fn lemma_reconnect_and_retry(transport: ErrorKind, second: ErrorKind, app: ErrorKind)
    requires
        !spec_is_application_kind(transport),
        spec_is_application_kind(app),
    ensures
        spec_request_step(false, Some(transport)) == StepVerdict::RetryOnce,
        spec_request_step(true, None) == StepVerdict::Deliver,
        spec_request_step(true, Some(second)) == StepVerdict::Fail,
        spec_request_step(false, Some(app)) == StepVerdict::Fail,
        spec_request_step(true, Some(app)) == StepVerdict::Fail,
{
}

/// What the idle loop does with one await's outcome.
pub enum IdleAction {
    /// Hand these changed-subsystem pairs to the reconciler, then reissue
    /// the long-poll.
    Reconcile(Vec<(String, String)>),
    /// The wait was cancelled: abandon it unread, let the coordinated
    /// reconnect run, and wait for its release signal before reissuing.
    AwaitReconnect,
    /// The wait failed; reissue the long-poll.
    Reissue,
}

/// What the idle loop awaited: the long-poll's response, the cancellation
/// signal, or a failure of the poll itself.
pub enum IdleEvent {
    Response(Vec<(String, String)>),
    Canceled,
    Failed(Error),
}

/// Decides one turn of the idle loop.  A response is reconciled; a
/// cancellation abandons the in-flight wait without reading its result and
/// defers to the coordinated reconnect; an error is logged by the caller
/// and the poll is simply reissued.
pub fn idle_step(event: IdleEvent) -> (r: IdleAction)
    ensures
        match event {
            IdleEvent::Response(data) => r matches IdleAction::Reconcile(d) && d == data,
            IdleEvent::Canceled => r is AwaitReconnect,
            IdleEvent::Failed(_) => r is Reissue,
        },
{
    match event {
        IdleEvent::Response(data) => IdleAction::Reconcile(data),
        IdleEvent::Canceled => IdleAction::AwaitReconnect,
        IdleEvent::Failed(_) => IdleAction::Reissue,
    }
}

/// Whether a reconciled idle response stands for a seek: the backend names
/// the `player` subsystem first among the changed ones, while the
/// reconciler saw nothing change but possibly the position.  The idle loop
/// then synthesizes a position notification.
pub fn should_synthesize_position(response: &Vec<(String, String)>, could_be_seeking: bool) -> (r:
    bool)
    ensures
        r == (could_be_seeking && response@.len() > 0 && response@[0].1@ == "player"@),
{
    if !could_be_seeking {
        return false;
    }
    if response.len() == 0 {
        return false;
    }
    eq_str(response[0].1.as_str(), "player")
}

/// The greeting prefix the backend must send on connect.
pub open spec fn greeting_prefix() -> Seq<char> {
    "OK MPD"@
}

/// Checks the handshake greeting: the first line of a fresh connection
/// must start with `OK MPD`.  A mismatch is a fatal `InvalidConnection`
/// error, never retried.
pub fn validate_greeting(line: &str) -> (r: Result<(), Error>)
    ensures
        r is Ok <==> seq_starts_with(line@, greeting_prefix()),
        r matches Err(e) ==> e.kind == ErrorKind::InvalidConnection,
{
    if starts_with_str(line, "OK MPD") {
        Ok(())
    } else {
        Err(
            Error::new(
                ErrorKind::InvalidConnection,
                "expected a greeting starting with OK MPD from the backend",
            ),
        )
    }
}

/// Whether the connect loop gives up after one more failure: a positive
/// retry budget is exhausted once the failures exceed it; a non-positive
/// budget means retrying without bound.
pub open spec fn spec_gives_up(retries: isize, failures: isize) -> bool {
    retries > 0 && failures > retries
}

pub fn connect_gives_up(retries: isize, failures: isize) -> (r: bool)
    ensures
        r == spec_gives_up(retries, failures),
{
    retries > 0 && failures > retries
}

/// Seconds between connection attempts.
pub const RETRY_DELAY_SECS: u64 = 3;

/// Seconds between keepalive pings on the command channel.
pub const PING_INTERVAL_SECS: u64 = 15;

} // verus!
