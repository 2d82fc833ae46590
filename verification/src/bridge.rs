//! The invocation bridge: a bind-once / accept-forever listener contract
//! adapted to a pull-based work loop. The bridge itself performs no I/O;
//! it is a state machine that, fed the outside world's events, says which
//! action to perform next. The surrounding shell runs the loop: it
//! performs each action (the long poll, the application call, the POST)
//! and hands the outcome back as the next event.
//!
//! One invocation is in flight at a time: a new poll is requested only
//! from the state reached by completing the previous invocation's POST,
//! which `handle`'s contract pins down.

use vstd::prelude::*;
use vstd::string::*;
use crate::codec::{
    decode_invocation, encode_response, encode_app_error, spec_decode_err, spec_request_matches,
    spec_context_matches, spec_ser_diag_of,
};
use crate::context::{InvocationContext, spec_find_header};
use crate::envelope::{spec_parse_envelope, spec_ser_response};
use crate::error::{AppError, BridgeError};
use crate::model::{Request, Response, header_views};
use crate::origin::{RequestOrigin, spec_origin_of};
use crate::text::chars_to_string;
use crate::json::write_lit;

verus! {

/// The fixed control-plane route polled for the next invocation.
pub fn next_invocation_path() -> (r: String)
    ensures
        r@ == "2018-06-01/runtime/invocation/next"@,
{
    String::from_str("2018-06-01/runtime/invocation/next")
}

/// The control-plane route a response for `id` is posted to.
pub open spec fn spec_response_path(id: Seq<char>) -> Seq<char> {
    "2018-06-01/runtime/invocation/"@ + id + "/response"@
}

/// The control-plane route an error for `id` is posted to.
pub open spec fn spec_error_path(id: Seq<char>) -> Seq<char> {
    "2018-06-01/runtime/invocation/"@ + id + "/error"@
}

/// Builds the response route, as `spec_response_path` says.
pub fn response_path(id: &str) -> (r: String)
    ensures
        r@ == spec_response_path(id@),
{
    let mut out: Vec<char> = Vec::new();
    write_lit(&mut out, "2018-06-01/runtime/invocation/");
    write_lit(&mut out, id);
    write_lit(&mut out, "/response");
    chars_to_string(&out)
}

/// Builds the error route, as `spec_error_path` says.
pub fn error_path(id: &str) -> (r: String)
    ensures
        r@ == spec_error_path(id@),
{
    let mut out: Vec<char> = Vec::new();
    write_lit(&mut out, "2018-06-01/runtime/invocation/");
    write_lit(&mut out, id);
    write_lit(&mut out, "/error");
    chars_to_string(&out)
}

/// The marker header posted with every diagnostic, so the control plane
/// can tell an unhandled application failure from a handler response.
pub fn error_marker_name() -> (r: String)
    ensures
        r@ == "lambda-runtime-function-error-type"@,
{
    String::from_str("lambda-runtime-function-error-type")
}

/// The marker header's fixed value.
pub fn error_marker_value() -> (r: String)
    ensures
        r@ == "unhandled"@,
{
    String::from_str("unhandled")
}

/// The base endpoint URL for a configured endpoint authority.
pub fn base_url_of(endpoint: &str) -> (r: String)
    ensures
        r@ == "http://"@ + endpoint@,
{
    let mut out: Vec<char> = Vec::new();
    write_lit(&mut out, "http://");
    write_lit(&mut out, endpoint);
    chars_to_string(&out)
}

/// The listener's lifecycle: created, bound to a server, running the loop.
#[derive(Debug, Clone, Copy, PartialEq, Eq, Structural)]
pub enum Lifecycle {
    Unbound,
    Bound,
    Running,
}

/// The invocation in flight: the request id the follow-up POST must
/// address, and the origin dialect captured at decode time that the
/// response envelope must be shaped by.
#[derive(Debug, Clone)]
pub struct InFlight {
    pub request_id: String,
    pub origin: RequestOrigin,
}

/// Where the run loop stands between events.
#[derive(Debug, Clone)]
pub enum Phase {
    /// No invocation in flight; a poll has been requested.
    AwaitPoll,
    /// An invocation was decoded and handed to the application.
    AwaitResponse(InFlight),
    /// The response or diagnostic POST has been requested.
    AwaitPost(InFlight),
    /// A fatal fault stopped the loop.
    Halted(BridgeError),
}

/// What the shell observed: the poll response arrived, the application
/// finished, or the POST completed.
#[derive(Debug)]
pub enum Event {
    Polled { headers: Vec<(String, String)>, body: String },
    Responded { outcome: Result<Response, AppError> },
    Posted,
}

/// What the shell must do next. `Fail` ends the loop; every other action's
/// completion is reported back as an event.
#[derive(Debug)]
pub enum Action {
    Poll,
    Invoke { request: Request, context: InvocationContext },
    PostResponse { path: String, body: String },
    PostError { path: String, body: String, header_name: String, header_value: String },
    Fail { error: BridgeError },
}

/// The invocation bridge.
#[derive(Debug)]
pub struct Bridge {
    pub lifecycle: Lifecycle,
    pub phase: Phase,
    pub listen_info: Vec<String>,
}

/// The action is a fault with the given error.
pub open spec fn spec_fails_with(a: Action, err: BridgeError) -> bool {
    match a {
        Action::Fail { error } => error == err,
        _ => false,
    }
}

/// What one step of the running loop guarantees: for the phase the bridge
/// was in and the event fed to it, the action returned and the phase
/// reached. The origin and request id used for a POST are exactly the ones
/// captured when that invocation was decoded.
pub open spec fn spec_handle_step(pre: Bridge, e: Event, a: Action, post: Bridge) -> bool {
    match (pre.phase, e) {
        (Phase::AwaitPoll, Event::Polled { headers, body }) => {
            let h = header_views(headers@);
            let s = body@;
            match spec_decode_err(h, s) {
                Some(err) => {
                    &&& spec_fails_with(a, err)
                    &&& post.phase matches Phase::Halted(err2) && err2 == err
                },
                None => {
                    &&& a matches Action::Invoke { request, context }
                        && spec_parse_envelope(s) matches Some(env) && spec_request_matches(
                        request,
                        env,
                    ) && spec_context_matches(context, h)
                    &&& post.phase matches Phase::AwaitResponse(f) && Some(f.request_id@)
                        == spec_find_header(h, "request-id"@) && Some(f.origin) == spec_origin_of(
                        spec_find_header(h, "dialect"@)->Some_0,
                    )
                },
            }
        },
        (Phase::AwaitResponse(f), Event::Responded { outcome }) => {
            match outcome {
                Ok(resp) => {
                    if resp.body is Binary {
                        &&& spec_fails_with(a, BridgeError::EncodingError)
                        &&& post.phase matches Phase::Halted(err) && err
                            == BridgeError::EncodingError
                    } else {
                        &&& a matches Action::PostResponse { path, body } && path@
                            == spec_response_path(f.request_id@) && body@ == spec_ser_response(
                            resp,
                            f.origin,
                        )
                        &&& post.phase matches Phase::AwaitPost(f2) && f2.request_id@
                            == f.request_id@ && f2.origin == f.origin
                    }
                },
                Err(app) => {
                    &&& a matches Action::PostError { path, body, header_name, header_value }
                        && path@ == spec_error_path(f.request_id@) && body@ == spec_ser_diag_of(
                        app,
                    ) && header_name@ == "lambda-runtime-function-error-type"@ && header_value@
                        == "unhandled"@
                    &&& post.phase matches Phase::AwaitPost(f2) && f2.request_id@ == f.request_id@
                        && f2.origin == f.origin
                },
            }
        },
        (Phase::AwaitPost(_), Event::Posted) => a is Poll && post.phase is AwaitPoll,
        _ => ({
            &&& spec_fails_with(a, BridgeError::Misuse)
            &&& post.phase matches Phase::Halted(err) && err == BridgeError::Misuse
        }),
    }
}

impl Bridge {
    /// A fresh, unbound bridge with no listen metadata recorded.
    pub fn new() -> (b: Bridge)
        ensures
            b.lifecycle is Unbound,
            b.phase is AwaitPoll,
            b.listen_info@.len() == 0,
    {
        Bridge { lifecycle: Lifecycle::Unbound, phase: Phase::AwaitPoll, listen_info: Vec::new() }
    }

    /// Accepts the server handle: allowed exactly once, before `accept`.
    pub fn bind(&mut self) -> (r: Result<(), BridgeError>)
        ensures
            old(self).lifecycle is Unbound ==> r is Ok && final(self).lifecycle is Bound && final(self).phase == old(self).phase && final(self).listen_info == old(self).listen_info,
            !(old(self).lifecycle is Unbound) ==> r == Err::<(), BridgeError>(BridgeError::Misuse)
                && *final(self) == *old(self),
    {
        match self.lifecycle {
            Lifecycle::Unbound => {
                self.lifecycle = Lifecycle::Bound;
                Ok(())
            },
            _ => Err(BridgeError::Misuse),
        }
    }

    /// Starts the run loop: allowed exactly once, after `bind`. The
    /// returned action is the first poll; no invocation is in flight yet.
    pub fn accept(&mut self) -> (r: Result<Action, BridgeError>)
        ensures
            old(self).lifecycle is Bound ==> (r matches Ok(a) && a is Poll) && final(self).lifecycle is Running && final(self).phase is AwaitPoll && final(self).listen_info
                == old(self).listen_info,
            !(old(self).lifecycle is Bound) ==> r == Err::<Action, BridgeError>(
                BridgeError::Misuse,
            ) && *final(self) == *old(self),
    {
        match self.lifecycle {
            Lifecycle::Bound => {
                self.lifecycle = Lifecycle::Running;
                self.phase = Phase::AwaitPoll;
                Ok(Action::Poll)
            },
            _ => Err(BridgeError::Misuse),
        }
    }

    /// The recorded listen metadata; for this bridge there is no real
    /// socket, so it is typically empty.
    pub fn info(&self) -> (r: &Vec<String>)
        ensures
            r@ == self.listen_info@,
    {
        &self.listen_info
    }

    /// Feeds one event to the running loop and yields the next action.
    ///
    /// The contract carries the loop's guarantees: an invocation's
    /// response is encoded with the origin and posted to the request id
    /// captured when that same invocation was decoded; an application
    /// failure is always answered with a diagnostic POST, never a fault;
    /// and a new poll is requested only once the prior invocation's POST
    /// has completed, so no second poll overlaps an invocation in flight.
    pub fn handle(&mut self, e: Event) -> (a: Action)
        ensures
            final(self).lifecycle == old(self).lifecycle,
            final(self).listen_info == old(self).listen_info,
            // a poll is requested only by completing a POST: at most one
            // invocation is ever in flight
            a is Poll ==> old(self).phase is AwaitPost && e is Posted,
            // a halted loop stays halted and repeats its fault
            old(self).phase matches Phase::Halted(err) ==> spec_fails_with(a, err) && final(self).phase == old(self).phase,
            // an event before the loop runs is a contract misuse
            !(old(self).lifecycle is Running) && !(old(self).phase is Halted)
                ==> spec_fails_with(a, BridgeError::Misuse) && final(self).phase is Halted,
            // one step of the running loop
            old(self).lifecycle is Running && !(old(self).phase is Halted) ==> spec_handle_step(
                *old(self),
                e,
                a,
                *final(self),
            ),
    {
        match &self.phase {
            Phase::Halted(err) => {
                return Action::Fail { error: *err };
            },
            _ => {},
        }
        let running = match self.lifecycle {
            Lifecycle::Running => true,
            _ => false,
        };
        if !running {
            self.phase = Phase::Halted(BridgeError::Misuse);
            return Action::Fail { error: BridgeError::Misuse };
        }
        match e {
            Event::Polled { headers, body } => {
                let in_poll = match &self.phase {
                    Phase::AwaitPoll => true,
                    _ => false,
                };
                if !in_poll {
                    self.phase = Phase::Halted(BridgeError::Misuse);
                    return Action::Fail { error: BridgeError::Misuse };
                }
                match decode_invocation(&headers, body.as_str()) {
                    Err(err) => {
                        self.phase = Phase::Halted(err);
                        Action::Fail { error: err }
                    },
                    Ok((request, context, origin)) => {
                        let f = InFlight { request_id: context.request_id.clone(), origin };
                        self.phase = Phase::AwaitResponse(f);
                        Action::Invoke { request, context }
                    },
                }
            },
            Event::Responded { outcome } => {
                let f: InFlight = match &self.phase {
                    Phase::AwaitResponse(f) => InFlight {
                        request_id: f.request_id.clone(),
                        origin: f.origin,
                    },
                    _ => {
                        self.phase = Phase::Halted(BridgeError::Misuse);
                        return Action::Fail { error: BridgeError::Misuse };
                    },
                };
                match outcome {
                    Ok(resp) => {
                        match encode_response(&resp, f.origin) {
                            Ok(body) => {
                                let path = response_path(f.request_id.as_str());
                                self.phase = Phase::AwaitPost(f);
                                Action::PostResponse { path, body }
                            },
                            Err(err) => {
                                self.phase = Phase::Halted(err);
                                Action::Fail { error: err }
                            },
                        }
                    },
                    Err(app) => {
                        let body = encode_app_error(&app);
                        let path = error_path(f.request_id.as_str());
                        self.phase = Phase::AwaitPost(f);
                        Action::PostError {
                            path,
                            body,
                            header_name: error_marker_name(),
                            header_value: error_marker_value(),
                        }
                    },
                }
            },
            Event::Posted => {
                let in_post = match &self.phase {
                    Phase::AwaitPost(_) => true,
                    _ => false,
                };
                if !in_post {
                    self.phase = Phase::Halted(BridgeError::Misuse);
                    return Action::Fail { error: BridgeError::Misuse };
                }
                self.phase = Phase::AwaitPoll;
                Action::Poll
            },
        }
    }
}

} // verus!
