//! The session cookie and the check that every request passes first.
//!
//! The check makes sure that a request carries the id of a valid session. A
//! request without the session cookie, or with one that is unknown to the
//! store or has expired, gets a fresh session, whose id goes out with the
//! response as a cookie. The check is a state machine: [`ensure_session`]
//! starts it, and [`SessionGate::resume`] takes it one step further with each
//! answer of the store.

use vstd::prelude::*;
use crate::http::{server_error, CookieHeader, CookieHeaderView, Rejection, RejectionView};
use crate::session::{
    base64_text, fresh_session_at, fresh_session_outcome, fresh_session_result, random_bytes,
    verify_session_at, verify_session_outcome, FreshSession, FreshSessionView, SessionId,
    SessionInfo, SessionInfoView, Verification, VerificationView, SESSION_ID_BYTES,
};
use crate::store::{StoreReply, StoreReplyView, StoreRequest, StoreRequestView};
use crate::time::{current_time, SessionTime, Timestamp};

verus! {

/// The name of the cookie that carries the session id.
pub const SESSION_COOKIE_NAME: &'static str = "budgeters_session";

/// Message of the rejection of a request that finds no store.
pub const STORE_UNAVAILABLE: &'static str = "Unable to establish connection to database.";

/// Message of the rejection of a request for which no session could be made.
pub const SESSION_NOT_ISSUED: &'static str = "Unable to give new session id.";

/// Message of the rejection of a request whose session id could not be
/// verified.
pub const SESSION_NOT_VERIFIED: &'static str = "Unable to verify session id.";

/// The text that sets a cookie: the name, `=` and the value, followed by
/// `; HttpOnly` and `; Secure` where the cookie has these attributes, in this
/// order.
pub open spec fn cookie_text(name: Seq<char>, value: Seq<char>, secure: bool, http_only: bool) -> Seq<
    char,
> {
    name + "="@ + value + (if http_only {
        "; HttpOnly"@
    } else {
        Seq::<char>::empty()
    }) + (if secure {
        "; Secure"@
    } else {
        Seq::<char>::empty()
    })
}

/// Builds a cookie with `cookie::CookieBuilder` and formats it as `cookie`
/// does for a `Set-Cookie` header. With the two attributes set and no others,
/// `cookie` writes the name, `=`, the value, then `; HttpOnly` if that
/// attribute is true, then `; Secure` if that one is; it does not encode the
/// name or the value.
#[verifier::external_body]
fn format_cookie(name: &str, value: &str, secure: bool, http_only: bool) -> (text: String)
    ensures
        text@ == cookie_text(name@, value@, secure, http_only),
{
    cookie::CookieBuilder::new(name, value).secure(secure).http_only(http_only).finish().to_string()
}

/// The cookie of a session: what the client sends back, and what sets it.
#[derive(Debug, PartialEq, Eq)]
pub struct SessionCookie {
    /// The value of the cookie: the session id.
    pub value: String,
    /// The text of the `Set-Cookie` header that sets the cookie.
    pub header: String,
}

/// What a [`SessionCookie`] holds.
pub struct SessionCookieView {
    pub value: Seq<char>,
    pub header: Seq<char>,
}

impl View for SessionCookie {
    type V = SessionCookieView;

    open spec fn view(&self) -> SessionCookieView {
        SessionCookieView { value: self.value@, header: self.header@ }
    }
}

/// The cookie of the session `session_id`: named [`SESSION_COOKIE_NAME`],
/// secure and hidden from scripts, without an expiry of its own.
pub open spec fn session_cookie(session_id: Seq<char>) -> SessionCookieView {
    SessionCookieView {
        value: session_id,
        header: cookie_text(SESSION_COOKIE_NAME@, session_id, true, true),
    }
}

/// The cookie of the session `session_id`.
pub fn create_session_cookie(session_id: SessionId) -> (cookie: SessionCookie)
    ensures
        cookie@ == session_cookie(session_id@),
{
    let header = format_cookie(SESSION_COOKIE_NAME, session_id.as_str(), true, true);
    SessionCookie { value: session_id, header }
}

/// What the check waits for.
#[derive(Debug, PartialEq, Eq)]
pub enum SessionGate {
    /// For the record under the id that the request carries.
    Verifying { session_id: SessionId },
    /// For the removal of the expired record that the request referred to.
    Discarding,
    /// For the insertion of the record of a fresh session.
    Minting { candidate: SessionInfo },
}

/// What the check has the caller do next.
#[derive(Debug, PartialEq, Eq)]
pub enum GateStep {
    /// Carry out `request` on the store and hand the answer to
    /// [`SessionGate::resume`] of `next`.
    Ask { request: StoreRequest, next: SessionGate },
    /// The request carries a valid session: pass it on unchanged.
    Forward,
    /// A fresh session was made: pass the request on with the cookie's value
    /// in the request header named [`SESSION_COOKIE_NAME`], and set the cookie
    /// on the response.
    ForwardWithSession(SessionCookie),
    /// End the request with this response.
    Reject(Rejection),
}

/// What a [`SessionGate`] holds.
pub enum SessionGateView {
    Verifying { session_id: Seq<char> },
    Discarding,
    Minting { candidate: SessionInfoView },
}

/// What a [`GateStep`] holds.
pub enum GateStepView {
    Ask { request: StoreRequestView, next: SessionGateView },
    Forward,
    ForwardWithSession(SessionCookieView),
    Reject(RejectionView),
}

impl View for SessionGate {
    type V = SessionGateView;

    open spec fn view(&self) -> SessionGateView {
        match *self {
            SessionGate::Verifying { session_id } => SessionGateView::Verifying {
                session_id: session_id@,
            },
            SessionGate::Discarding => SessionGateView::Discarding,
            SessionGate::Minting { candidate } => SessionGateView::Minting { candidate: candidate@ },
        }
    }
}

impl View for GateStep {
    type V = GateStepView;

    open spec fn view(&self) -> GateStepView {
        match *self {
            GateStep::Ask { request, next } => GateStepView::Ask { request: request@, next: next@ },
            GateStep::Forward => GateStepView::Forward,
            GateStep::ForwardWithSession(cookie) => GateStepView::ForwardWithSession(cookie@),
            GateStep::Reject(rejection) => GateStepView::Reject(rejection@),
        }
    }
}

/// The record of a fresh session made at `now` of the given random bytes.
pub open spec fn fresh_record(entropy: Seq<u8>, now: Timestamp, session_time: SessionTime) -> SessionInfoView {
    SessionInfoView {
        session_id: base64_text(entropy),
        expiration_date: now.later(session_time),
        username: None,
    }
}

/// The step that makes a fresh session out of `candidate`: the record is to be
/// inserted, unless no store is at hand.
pub open spec fn create_session_step(store_available: bool, candidate: SessionInfoView) -> GateStepView {
    if store_available {
        GateStepView::Ask {
            request: StoreRequestView::InsertSession(candidate),
            next: SessionGateView::Minting { candidate },
        }
    } else {
        GateStepView::Reject(server_error(STORE_UNAVAILABLE@))
    }
}

/// The first step of the check. A request without the session cookie gets a
/// fresh session, made out of `candidate`; the id of any other request is
/// verified against the store. Without a store the request is refused with
/// status 500.
pub open spec fn ensure_session_step(
    cookies: CookieHeaderView,
    store_available: bool,
    candidate: SessionInfoView,
) -> GateStepView {
    match cookies.session_cookie() {
        Some(session_id) => if store_available {
            GateStepView::Ask {
                request: StoreRequestView::ReadSession { session_id },
                next: SessionGateView::Verifying { session_id },
            }
        } else {
            GateStepView::Reject(server_error(STORE_UNAVAILABLE@))
        },
        None => create_session_step(store_available, candidate),
    }
}

/// The step that follows the store's answer `reply` at `now`, where the check
/// waited in `gate`; `candidate` is the record of a fresh session, for the
/// case that one is needed.
///
/// While verifying: a valid id lets the request pass unchanged; an unknown id
/// leads to a fresh session; an expired one has its record removed first; a
/// failed read, or an answer of another kind, refuses the request with status
/// 500. After the removal, whatever its answer, a fresh session is made. While
/// minting: an inserted record lets the request pass with the new cookie; a
/// collision of ids leads to the next candidate; a failed insertion, or an
/// answer of another kind, refuses the request with status 500.
pub open spec fn resume_step(
    gate: SessionGateView,
    reply: StoreReplyView,
    now: Timestamp,
    candidate: SessionInfoView,
) -> GateStepView {
    match gate {
        SessionGateView::Verifying { session_id } => match reply {
            StoreReplyView::Session(read) => match verify_session_outcome(session_id, read, now) {
                Ok(VerificationView::Valid) => GateStepView::Forward,
                Ok(VerificationView::Invalid) => create_session_step(true, candidate),
                Ok(VerificationView::Expired { removal }) => GateStepView::Ask {
                    request: removal,
                    next: SessionGateView::Discarding,
                },
                Err(_) => GateStepView::Reject(server_error(SESSION_NOT_VERIFIED@)),
            },
            _ => GateStepView::Reject(server_error(SESSION_NOT_VERIFIED@)),
        },
        SessionGateView::Discarding => create_session_step(true, candidate),
        SessionGateView::Minting { candidate: pending } => match reply {
            StoreReplyView::Written(written) => match fresh_session_outcome(pending, written) {
                FreshSessionView::Issued(session_id) => GateStepView::ForwardWithSession(
                    session_cookie(session_id),
                ),
                FreshSessionView::Collision => create_session_step(true, candidate),
                FreshSessionView::Failed(_) => GateStepView::Reject(
                    server_error(SESSION_NOT_ISSUED@),
                ),
            },
            _ => GateStepView::Reject(server_error(SESSION_NOT_ISSUED@)),
        },
    }
}

/// What the making of a fresh session comes to, from the answer number
/// `from` on, where the record `pending` waits for that answer: the first
/// step that does not insert a further candidate. The answer number `i`
/// arrives at `nows[i]`, when the candidate `drawn[i]` is at hand for the case
/// that another one is needed. A run that has used up its answers has not
/// ended, and still waits.
pub open spec fn minting_run_from(
    pending: SessionInfoView,
    replies: Seq<StoreReplyView>,
    nows: Seq<Timestamp>,
    drawn: Seq<SessionInfoView>,
    from: int,
) -> GateStepView
    decreases replies.len() - from,
{
    if from < 0 || from >= replies.len() || from >= nows.len() || from >= drawn.len() {
        create_session_step(true, pending)
    } else {
        match resume_step(
            SessionGateView::Minting { candidate: pending },
            replies[from],
            nows[from],
            drawn[from],
        ) {
            GateStepView::Ask {
                next: SessionGateView::Minting { candidate },
                ..
            } => minting_run_from(candidate, replies, nows, drawn, from + 1),
            step => step,
        }
    }
}

/// Starts the making of a fresh session out of `candidate`.
pub fn create_session(store_available: bool, candidate: SessionInfo) -> (step: GateStep)
    ensures
        step@ == create_session_step(store_available, candidate@),
{
    if !store_available {
        return GateStep::Reject(Rejection::server_error(STORE_UNAVAILABLE));
    }
    let request = candidate.try_insert();
    GateStep::Ask { request, next: SessionGate::Minting { candidate } }
}

/// Starts the check of a request at `now`, with `entropy` for the id of a
/// fresh session should one be needed.
pub fn ensure_session_at(
    cookies: &CookieHeader,
    store_available: bool,
    session_time: SessionTime,
    now: Timestamp,
    entropy: &[u8; SESSION_ID_BYTES],
) -> (step: GateStep)
    requires
        now.can_be_extended(session_time),
    ensures
        step@ == ensure_session_step(
            cookies@,
            store_available,
            fresh_record(entropy@, now, session_time),
        ),
{
    match cookies {
        CookieHeader::Present { session_cookie: Some(session_id) } => {
            if !store_available {
                return GateStep::Reject(Rejection::server_error(STORE_UNAVAILABLE));
            }
            GateStep::Ask {
                request: SessionInfo::try_read(session_id.as_str()),
                next: SessionGate::Verifying { session_id: session_id.clone() },
            }
        },
        _ => create_session(store_available, fresh_session_at(entropy, now, session_time)),
    }
}

/// Starts the check of a request, at the clock's reading and with fresh
/// random bytes for the id of a new session.
pub fn ensure_session(cookies: &CookieHeader, store_available: bool, session_time: SessionTime) -> (step:
    GateStep)
    ensures
        exists|entropy: Seq<u8>, now: Timestamp|
            entropy.len() == SESSION_ID_BYTES && now.is_clock_reading() && now.can_be_extended(
                session_time,
            ) && step@
                == ensure_session_step(
                cookies@,
                store_available,
                #[trigger] fresh_record(entropy, now, session_time),
            ),
{
    let now = current_time();
    let entropy = random_bytes();
    ensure_session_at(cookies, store_available, session_time, now, &entropy)
}

impl SessionGate {
    /// Takes the check one step further at `now` with the store's answer
    /// `reply`, with `entropy` for the id of a fresh session should one be
    /// needed.
    pub fn resume_at(
        self,
        reply: StoreReply,
        session_time: SessionTime,
        now: Timestamp,
        entropy: &[u8; SESSION_ID_BYTES],
    ) -> (step: GateStep)
        requires
            now.can_be_extended(session_time),
        ensures
            step@ == resume_step(self@, reply@, now, fresh_record(entropy@, now, session_time)),
    {
        match self {
            SessionGate::Verifying { session_id } => match reply {
                StoreReply::Session(read) => match verify_session_at(session_id.as_str(), read, now) {
                    Ok(Verification::Valid) => GateStep::Forward,
                    Ok(Verification::Invalid) => create_session(
                        true,
                        fresh_session_at(entropy, now, session_time),
                    ),
                    Ok(Verification::Expired { removal }) => GateStep::Ask {
                        request: removal,
                        next: SessionGate::Discarding,
                    },
                    Err(_) => GateStep::Reject(Rejection::server_error(SESSION_NOT_VERIFIED)),
                },
                _ => GateStep::Reject(Rejection::server_error(SESSION_NOT_VERIFIED)),
            },
            SessionGate::Discarding => create_session(
                true,
                fresh_session_at(entropy, now, session_time),
            ),
            SessionGate::Minting { candidate } => match reply {
                StoreReply::Written(written) => match fresh_session_result(candidate, written) {
                    FreshSession::Issued(session_id) => GateStep::ForwardWithSession(
                        create_session_cookie(session_id),
                    ),
                    FreshSession::Collision => create_session(
                        true,
                        fresh_session_at(entropy, now, session_time),
                    ),
                    FreshSession::Failed(_) => GateStep::Reject(
                        Rejection::server_error(SESSION_NOT_ISSUED),
                    ),
                },
                _ => GateStep::Reject(Rejection::server_error(SESSION_NOT_ISSUED)),
            },
        }
    }

    /// Takes the check one step further with the store's answer `reply`, at
    /// the clock's reading and with fresh random bytes for the id of a new
    /// session.
    pub fn resume(self, reply: StoreReply, session_time: SessionTime) -> (step: GateStep)
        ensures
            exists|entropy: Seq<u8>, now: Timestamp|
                entropy.len() == SESSION_ID_BYTES && now.is_clock_reading() && now.can_be_extended(
                session_time,
            ) && step@
                    == resume_step(
                    self@,
                    reply@,
                    now,
                    #[trigger] fresh_record(entropy, now, session_time),
                ),
    {
        let now = current_time();
        let entropy = random_bytes();
        self.resume_at(reply, session_time, now, &entropy)
    }
}

} // verus!
