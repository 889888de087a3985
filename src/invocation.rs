use vstd::prelude::*;
use crate::config::{method_of, Curl, Method};
use crate::error::{CurlError, ScriptKind};
use crate::request::{build_outcome, build_request, OutboundRequest};
use crate::response::{normalize_response, normalized, ExecutionResult};
use crate::template::resolve;
use crate::value::{Env, ScriptValue};

verus! {

/// Where an invocation stands between two pieces of outside work.
#[derive(Debug)]
pub enum Stage {
    /// The headers script is running.
    AwaitHeaders(Method, String),
    /// The body script is running; the headers outcome is kept.
    AwaitBody(Method, String, ScriptValue),
    /// The request is in flight.
    AwaitResponse,
    /// Nothing more is to be done.
    Finished,
}

/// What the outside work reported.
#[derive(Debug)]
pub enum Event {
    HeadersEvaluated(Result<ScriptValue, String>),
    BodyEvaluated(Result<ScriptValue, String>),
    /// The status and body bytes of the response, or the transport's failure.
    Responded(Result<(u16, Vec<u8>), String>),
}

/// The outside work to do next, or the end of the invocation.
#[derive(Debug)]
pub enum Action {
    /// Run the headers script against the environment.
    EvaluateHeaders,
    /// Run the body script against the environment.
    EvaluateBody,
    /// Send this request and report the response.
    Send(OutboundRequest),
    /// The invocation succeeded with this result.
    Complete(ExecutionResult),
    /// The invocation failed.
    Abort(CurlError),
}

/// The event that a stage waits for.
pub open spec fn awaits(stage: Stage, event: Event) -> bool {
    match stage {
        Stage::AwaitHeaders(_, _) => event is HeadersEvaluated,
        Stage::AwaitBody(_, _, _) => event is BodyEvaluated,
        Stage::AwaitResponse => event is Responded,
        Stage::Finished => false,
    }
}

/// The stage and action that follow the outcome of a build.
pub open spec fn after_build(r: Result<OutboundRequest, CurlError>, next: (Stage, Action)) -> bool {
    match r {
        Ok(q) => next == (Stage::AwaitResponse, Action::Send(q)),
        Err(e) => next == (Stage::Finished, Action::Abort(e)),
    }
}

impl Curl {
    /// Opens an invocation: with a resolved URL and a supported method the
    /// headers script runs next; otherwise the invocation fails at once.
    pub fn start(&self, env: &Env) -> (r: (Stage, Action))
        ensures
            match (resolve(self@.url, env.vars@), method_of(self@.method)) {
                (Ok(u), Some(m)) => r.0 matches Stage::AwaitHeaders(x, y) && x == m && y@ == u
                    && r.1 is EvaluateHeaders,
                (Ok(_), None) => r.0 is Finished && (r.1 matches Action::Abort(
                    CurlError::InvalidMethod(_),
                )),
                (Err(_), _) => r.0 is Finished && (r.1 matches Action::Abort(
                    CurlError::Template(_, _),
                )),
            },
    {
        match self.prepare(env) {
            Ok((m, u)) => (Stage::AwaitHeaders(m, u), Action::EvaluateHeaders),
            Err(e) => (Stage::Finished, Action::Abort(e)),
        }
    }
}

/// Advances an invocation by the event its stage waits for.
///
/// A failed script or transport ends the invocation with an error that names
/// its source; the body script runs only after the headers script succeeded,
/// and the request is sent only once both outcomes have the right shape.
pub fn step(stage: Stage, event: Event) -> (r: (Stage, Action))
    requires
        awaits(stage, event),
    ensures
        match (stage, event) {
            (Stage::AwaitHeaders(m, u), Event::HeadersEvaluated(Ok(h))) => r == (
                Stage::AwaitBody(m, u, h),
                Action::EvaluateBody,
            ),
            (Stage::AwaitHeaders(_, _), Event::HeadersEvaluated(Err(c))) => r == (
                Stage::Finished,
                Action::Abort(CurlError::Script(ScriptKind::Headers, c)),
            ),
            (Stage::AwaitBody(m, u, h), Event::BodyEvaluated(Ok(b))) => exists|
                q: Result<OutboundRequest, CurlError>,
            |
                build_outcome(q, m, u@, h, b) && #[trigger] after_build(q, r),
            (Stage::AwaitBody(_, _, _), Event::BodyEvaluated(Err(c))) => r == (
                Stage::Finished,
                Action::Abort(CurlError::Script(ScriptKind::Body, c)),
            ),
            (Stage::AwaitResponse, Event::Responded(Ok((s, bytes)))) => r.0 is Finished && (
            r.1 matches Action::Complete(x) && normalized(x, s, bytes@)),
            (Stage::AwaitResponse, Event::Responded(Err(c))) => r == (
                Stage::Finished,
                Action::Abort(CurlError::Transport(c)),
            ),
            _ => false,
        },
{
    match (stage, event) {
        (Stage::AwaitHeaders(m, u), Event::HeadersEvaluated(Ok(h))) => (
            Stage::AwaitBody(m, u, h),
            Action::EvaluateBody,
        ),
        (Stage::AwaitHeaders(_, _), Event::HeadersEvaluated(Err(c))) => (
            Stage::Finished,
            Action::Abort(CurlError::Script(ScriptKind::Headers, c)),
        ),
        (Stage::AwaitBody(m, u, h), Event::BodyEvaluated(Ok(b))) => {
            let ghost gu = u;
            let q = build_request(m, u, &h, &b);
            let ghost gq = q;
            let r = match q {
                Ok(q) => (Stage::AwaitResponse, Action::Send(q)),
                Err(e) => (Stage::Finished, Action::Abort(e)),
            };
            assert(after_build(gq, r));
            r
        },
        (Stage::AwaitBody(_, _, _), Event::BodyEvaluated(Err(c))) => (
            Stage::Finished,
            Action::Abort(CurlError::Script(ScriptKind::Body, c)),
        ),
        (Stage::AwaitResponse, Event::Responded(Ok((s, bytes)))) => (
            Stage::Finished,
            Action::Complete(normalize_response(s, &bytes)),
        ),
        (Stage::AwaitResponse, Event::Responded(Err(c))) => (
            Stage::Finished,
            Action::Abort(CurlError::Transport(c)),
        ),
        // An event that the stage does not wait for is ruled out by `awaits`.
        (stage, _) => (stage, Action::Abort(CurlError::Transport(String::new()))),
    }
}

} // verus!
