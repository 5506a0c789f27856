//! The daemon's decisions on one request: which encoding answers, whether
//! a mutator is authorized, and which response a control change gives.
//! Reading the socket, decoding, locking and writing are the caller's part.
use crate::control::{
    action_for, applied, control_view, errored, invalid_msg, known_control, not_jetson_msg,
    supported, value_allowed, value_set, ControlError, ControlManager, ControlStatus, ControlStep,
    HostAction, HostOutcome,
};
use crate::health::{after_event, HealthEvent, HealthTracker};
use crate::protocol::{ErrorInfo, Response};
use crate::text::owned;
use vstd::prelude::*;

verus! {

/// The two wire encodings.
#[derive(Debug, Clone, Copy, PartialEq, Eq, Structural)]
pub enum Encoding {
    Text,
    Binary,
}

/// The encoding of the answer: binary only when the request failed to
/// decode as text and decoded as binary.
pub fn response_encoding(text_decoded: bool, binary_decoded: bool) -> (r: Encoding)
    ensures
        r == (if !text_decoded && binary_decoded {
            Encoding::Binary
        } else {
            Encoding::Text
        }),
{
    if !text_decoded && binary_decoded {
        Encoding::Binary
    } else {
        Encoding::Text
    }
}

/// Whether a mutator carrying `token` may run: always when no token is
/// configured or the configured one is empty, else only with that token.
pub open spec fn auth_allows(expected: Option<Seq<char>>, token: Option<Seq<char>>) -> bool {
    match expected {
        None => true,
        Some(e) => e.len() == 0 || token == Some(e),
    }
}

pub open spec fn opt_view(s: Option<String>) -> Option<Seq<char>> {
    match s {
        Some(v) => Some(v@),
        None => None,
    }
}

pub fn auth_ok(expected: &Option<String>, token: &Option<String>) -> (r: bool)
    ensures
        r == auth_allows(opt_view(*expected), opt_view(*token)),
{
    match expected {
        None => true,
        Some(e) => {
            if e.unicode_len() == 0 {
                return true;
            }
            match token {
                Some(t) => *t == *e,
                None => false,
            }
        },
    }
}

pub open spec fn error_view(r: Response, code: Seq<char>, message: Seq<char>) -> bool {
    r matches Response::Error(e) && e.code@ == code && e.message@ == message
}

fn error_response(code: &str, message: String) -> (r: Response)
    ensures
        error_view(r, code@, message@),
{
    Response::Error(ErrorInfo { code: owned(code), message })
}

/// The answer to a mutator whose token does not match.
pub fn auth_failure() -> (r: Response)
    ensures
        error_view(r, "auth_failed"@, "Auth failed (set JETSONSCOPE_AUTH_TOKEN)"@),
{
    error_response("auth_failed", owned("Auth failed (set JETSONSCOPE_AUTH_TOKEN)"))
}

/// The answer when a shared slot could not be locked.
pub fn lock_failure() -> (r: Response)
    ensures
        error_view(r, "lock_error"@, "Lock error"@),
{
    error_response("lock_error", owned("Lock error"))
}

/// What to do next with a control change.
pub enum ControlReply {
    /// Answer with this response.
    Ready(Response),
    /// Perform this host action, then call `finish_set_control`.
    Perform(HostAction),
}

/// Starts a control change that passed authorization.
pub fn set_control_step(control: &mut ControlManager, name: &str, value: &str) -> (r: ControlReply)
    ensures
        final(control).is_mock() == old(control).is_mock(),
        ({
            let (o, n) = (old(control).spec_status(), final(control).spec_status());
            if !known_control(name@) {
                error_view(r->Ready_0, "invalid_control"@, "Unknown control"@) && r is Ready && n == o
            } else if !o.available {
                r is Ready && error_view(r->Ready_0, "control_error"@, not_jetson_msg()) && errored(
                    o,
                    n,
                    not_jetson_msg(),
                )
            } else if !supported(o, name@) {
                r matches ControlReply::Ready(Response::Error(e)) && e.code@ == "control_error"@
                    && errored(o, n, e.message@)
            } else if !value_allowed(o, name@, value@) {
                r matches ControlReply::Ready(Response::Error(e)) && e.code@ == "invalid_control"@
                    && errored(o, n, e.message@) && e.message@ == invalid_msg(o, name@, value@)
            } else if old(control).is_mock() {
                r matches ControlReply::Ready(Response::ControlState(info)) && value_set(
                    o,
                    n,
                    name@,
                    value@,
                ) && info@ == control_view(n, name@)
            } else {
                r matches ControlReply::Perform(a) && action_for(a, name@, value@) && n == o
            }
        }),
{
    match control.apply_control(name, value) {
        Ok(ControlStep::Done(info)) => ControlReply::Ready(Response::ControlState(info)),
        Ok(ControlStep::Pending(a)) => ControlReply::Perform(a),
        Err(ControlError::Unknown) => ControlReply::Ready(
            error_response("invalid_control", owned("Unknown control")),
        ),
        Err(ControlError::Invalid(m)) => ControlReply::Ready(error_response("invalid_control", m)),
        Err(ControlError::Failed(m)) => ControlReply::Ready(error_response("control_error", m)),
    }
}

/// Records what came of the host action of a control change and gives the
/// answer: the control's new state, or a `control_error`.
pub fn finish_set_control(
    control: &mut ControlManager,
    name: &str,
    action: HostAction,
    outcome: HostOutcome,
) -> (r: Response)
    ensures
        final(control).is_mock() == old(control).is_mock(),
        ({
            let (o, n) = (old(control).spec_status(), final(control).spec_status());
            match outcome {
                HostOutcome::Failed(m) => error_view(r, "control_error"@, m@) && errored(o, n, m@),
                HostOutcome::ClocksNow(b) => r matches Response::ControlState(info) && info@
                    == control_view(n, name@) && if action == HostAction::ToggleJetsonClocks {
                    n == ControlStatus { jetson_clocks: Some(b), last_error: None, ..o }
                } else {
                    applied(o, n, action)
                },
                HostOutcome::Done => if action == HostAction::ToggleJetsonClocks {
                    error_view(r, "control_error"@, "No se pudo leer estado jetson_clocks"@)
                        && errored(o, n, "No se pudo leer estado jetson_clocks"@)
                } else {
                    r matches Response::ControlState(info) && info@ == control_view(n, name@)
                        && applied(o, n, action)
                },
            }
        }),
{
    match control.complete(action, outcome) {
        Ok(()) => Response::ControlState(control.control_info(name)),
        Err(m) => error_response("control_error", m),
    }
}

/// The message to count as an error, when the response is one.
pub fn error_to_record(resp: &Response) -> (r: Option<String>)
    ensures
        match *resp {
            Response::Error(e) => r matches Some(m) && m@ == e.message@,
            _ => r is None,
        },
{
    match resp {
        Response::Error(e) => Some(e.message.clone()),
        _ => None,
    }
}

/// Counts an error response in the health counters.
pub fn record_response(health: &mut HealthTracker, resp: &Response)
    ensures
        resp is Error ==> final(health).counters() == after_event(
            old(health).counters(),
            HealthEvent::Error,
        ),
        resp matches Response::Error(e) ==> final(health).spec_last_error() == Some(e.message@),
        !(resp is Error) ==> final(health).counters() == old(health).counters()
            && final(health).spec_last_error() == old(health).spec_last_error(),
{
    match error_to_record(resp) {
        Some(m) => health.record_error(m),
        None => {},
    }
}

/// Checks the token of a mutator. When it does not match a configured,
/// non-empty token, the answer is `auth_failed` and one more error is
/// counted; otherwise nothing is answered and nothing counted.
pub fn check_authorization(
    health: &mut HealthTracker,
    expected: &Option<String>,
    token: &Option<String>,
) -> (r: Option<Response>)
    ensures
        auth_allows(opt_view(*expected), opt_view(*token)) ==> r is None && final(health).counters()
            == old(health).counters() && final(health).spec_last_error()
            == old(health).spec_last_error(),
        !auth_allows(opt_view(*expected), opt_view(*token)) ==> final(health).spec_last_error()
            == Some("Auth failed (set JETSONSCOPE_AUTH_TOKEN)"@),
        !auth_allows(opt_view(*expected), opt_view(*token)) ==> (r matches Some(resp) && error_view(
            resp,
            "auth_failed"@,
            "Auth failed (set JETSONSCOPE_AUTH_TOKEN)"@,
        )) && final(health).counters() == after_event(old(health).counters(), HealthEvent::Error),
{
    if auth_ok(expected, token) {
        None
    } else {
        let resp = auth_failure();
        record_response(health, &resp);
        Some(resp)
    }
}

/// A label value safe inside double quotes: each `"` becomes `'`.
pub fn sanitize_label(s: &str) -> (r: String)
    ensures
        r@ == crate::text::replace_all(s@, "\""@, "'"@),
{
    let chars = crate::pattern::chars_of(s);
    let out = crate::text::replace_chars(
        &chars,
        &crate::pattern::chars_of("\""),
        &crate::pattern::chars_of("'"),
    );
    crate::pattern::string_of(&out)
}

// ---------------------------------------------------------------------
// The HTTP surface.
// ---------------------------------------------------------------------
/// The token of an `Authorization` value `Bearer <token>` (or `bearer`).
pub open spec fn bearer_token(v: Seq<char>) -> Option<Seq<char>> {
    if crate::text::starts_with(v, "Bearer "@) {
        Some(v.subrange(7, v.len() as int))
    } else if crate::text::starts_with(v, "bearer "@) {
        Some(v.subrange(7, v.len() as int))
    } else {
        None
    }
}

/// Whether an HTTP request may read: always when no token is configured or
/// it is empty, else when one `Authorization` value carries it as a bearer
/// token.
pub open spec fn bearer_allows(expected: Option<Seq<char>>, values: Seq<Seq<char>>) -> bool {
    match expected {
        None => true,
        Some(e) => e.len() == 0 || exists|i: int|
            0 <= i < values.len() && bearer_token(#[trigger] values[i]) == Some(e),
    }
}

fn bearer_of(v: &String) -> (r: Option<Vec<char>>)
    ensures
        match r {
            Some(t) => bearer_token(v@) == Some(t@),
            None => bearer_token(v@) is None,
        },
{
    let chars = crate::pattern::chars_of(v.as_str());
    proof {
        reveal_strlit("Bearer ");
        reveal_strlit("bearer ");
    }
    if crate::text::starts_with_chars(&chars, &crate::pattern::chars_of("Bearer "))
        || crate::text::starts_with_chars(&chars, &crate::pattern::chars_of("bearer ")) {
        Some(crate::text::slice_chars(&chars, 7, chars.len()))
    } else {
        None
    }
}

/// Whether an HTTP request with these `Authorization` values may read.
pub fn authorize_request(expected: &Option<String>, authorization: &Vec<String>) -> (r: bool)
    ensures
        r == bearer_allows(opt_view(*expected), crate::protocol::strings_view(authorization@)),
{
    let e = match expected {
        None => return true,
        Some(e) => e,
    };
    if e.unicode_len() == 0 {
        return true;
    }
    let want = crate::pattern::chars_of(e.as_str());
    let ghost values = crate::protocol::strings_view(authorization@);
    let mut i: usize = 0;
    while i < authorization.len()
        invariant
            i <= authorization@.len(),
            values == crate::protocol::strings_view(authorization@),
            want@ == e@,
            opt_view(*expected) == Some(e@),
            e@.len() > 0,
            forall|j: int| 0 <= j < i ==> bearer_token(#[trigger] values[j]) != Some(e@),
        decreases authorization@.len() - i,
    {
        assert(values[i as int] == authorization@[i as int]@);
        if let Some(t) = bearer_of(&authorization[i]) {
            if crate::text::chars_equal(&t, &want) {
                assert(bearer_token(values[i as int]) == Some(e@));
                return true;
            }
        }
        i = i + 1;
    }
    false
}

/// What an HTTP request is answered with.
#[derive(Debug, Clone, Copy, PartialEq, Eq, Structural)]
pub enum HttpReply {
    Metrics,
    DebugSnapshot,
    DebugProcesses,
    /// 401.
    Unauthorized,
    /// 404.
    NotFound,
}

/// The answer to a path: `/metrics` and `/debug/...` each need their own
/// authorization; anything else is not found.
pub open spec fn reply_for(path: Seq<char>, metrics_ok: bool, debug_ok: bool) -> HttpReply {
    if crate::text::starts_with(path, "/metrics"@) {
        if metrics_ok {
            HttpReply::Metrics
        } else {
            HttpReply::Unauthorized
        }
    } else if crate::text::starts_with(path, "/debug"@) {
        if !debug_ok {
            HttpReply::Unauthorized
        } else if crate::text::starts_with(path, "/debug/processes"@) {
            HttpReply::DebugProcesses
        } else if crate::text::starts_with(path, "/debug/snapshot"@) {
            HttpReply::DebugSnapshot
        } else {
            HttpReply::NotFound
        }
    } else {
        HttpReply::NotFound
    }
}

pub fn http_reply(path: &str, metrics_ok: bool, debug_ok: bool) -> (r: HttpReply)
    ensures
        r == reply_for(path@, metrics_ok, debug_ok),
{
    let p = crate::pattern::chars_of(path);
    if crate::text::starts_with_chars(&p, &crate::pattern::chars_of("/metrics")) {
        if metrics_ok {
            HttpReply::Metrics
        } else {
            HttpReply::Unauthorized
        }
    } else if crate::text::starts_with_chars(&p, &crate::pattern::chars_of("/debug")) {
        if !debug_ok {
            HttpReply::Unauthorized
        } else if crate::text::starts_with_chars(&p, &crate::pattern::chars_of("/debug/processes")) {
            HttpReply::DebugProcesses
        } else if crate::text::starts_with_chars(&p, &crate::pattern::chars_of("/debug/snapshot")) {
            HttpReply::DebugSnapshot
        } else {
            HttpReply::NotFound
        }
    } else {
        HttpReply::NotFound
    }
}

} // verus!
