//! The check that stands in front of a protected endpoint.
//!
//! An endpoint declares the permission level that it asks for. The check
//! resolves the level of the session that a request belongs to and compares
//! the two. Where the session's level suffices the check hands out a
//! [`Guard`], which cannot be had in any other way: a handler that takes one
//! runs only for requests that passed. The check is a state machine:
//! [`Guard::from_request`] starts it, and [`GuardGate::resume`] takes it one
//! step further with each answer of the store.

use vstd::prelude::*;
use crate::auth::Permissions;
use crate::http::{
    fields_view, CookieHeader, CookieHeaderView, FORBIDDEN, INTERNAL_SERVER_ERROR,
};
use crate::session::{
    from_read_outcome, from_request_outcome, read_permissions_outcome, PermissionLookup,
    SessionInfo,
};
use crate::store::{StoreReply, StoreReplyView, StoreRequest, StoreRequestView};

verus! {

/// The level that is reported for a session without permissions.
pub const NO_LEVEL: &'static str = "None";

/// Message of the rejection of a request whose session could not be found.
pub const SESSION_NOT_EXTRACTED: &'static str = "Unable to extract session info.";

/// Message of the rejection of a request that got an answer of the store that
/// does not fit what was asked.
pub const UNEXPECTED_REPLY: &'static str = "The store gave an answer of another kind.";

/// Evidence that a request passed the check of an endpoint.
#[derive(Debug, PartialEq, Eq)]
pub struct Guard {
    required: Permissions,
    held: Permissions,
}

/// Why a request did not pass the check of an endpoint.
#[derive(Debug, PartialEq, Eq)]
pub enum GuardRejection {
    /// The session's level does not suffice. Answered with status 403.
    Forbidden { your_level: String, required_level: String },
    /// The level could not be resolved. Answered with status 500.
    ServerError { error: String },
}

/// What a [`GuardRejection`] holds.
pub enum GuardRejectionView {
    Forbidden { your_level: Seq<char>, required_level: Seq<char> },
    ServerError { error: Seq<char> },
}

impl View for GuardRejection {
    type V = GuardRejectionView;

    open spec fn view(&self) -> GuardRejectionView {
        match *self {
            GuardRejection::Forbidden { your_level, required_level } => GuardRejectionView::Forbidden {
                your_level: your_level@,
                required_level: required_level@,
            },
            GuardRejection::ServerError { error } => GuardRejectionView::ServerError { error: error@ },
        }
    }
}

impl GuardRejectionView {
    /// The status of the response that reports the rejection.
    pub open spec fn status(self) -> u16 {
        match self {
            GuardRejectionView::Forbidden { .. } => FORBIDDEN,
            GuardRejectionView::ServerError { .. } => INTERNAL_SERVER_ERROR,
        }
    }

    /// The fields of the response that reports the rejection, by name, in the
    /// order in which they are written.
    pub open spec fn body(self) -> Seq<(Seq<char>, Seq<char>)> {
        match self {
            GuardRejectionView::Forbidden { your_level, required_level } => seq![
                ("your_level"@, your_level),
                ("required_level"@, required_level),
            ],
            GuardRejectionView::ServerError { error } => seq![("error"@, error)],
        }
    }
}

impl GuardRejection {
    /// The status of the response that reports the rejection.
    pub fn status(&self) -> (status: u16)
        ensures
            status == self@.status(),
    {
        match self {
            GuardRejection::Forbidden { .. } => FORBIDDEN,
            GuardRejection::ServerError { .. } => INTERNAL_SERVER_ERROR,
        }
    }

    /// The fields of the response that reports the rejection.
    pub fn body(&self) -> (fields: Vec<(String, String)>)
        ensures
            fields_view(fields@) == self@.body(),
    {
        let mut fields: Vec<(String, String)> = Vec::new();
        match self {
            GuardRejection::Forbidden { your_level, required_level } => {
                fields.push(("your_level".to_owned(), your_level.clone()));
                fields.push(("required_level".to_owned(), required_level.clone()));
            },
            GuardRejection::ServerError { error } => {
                fields.push(("error".to_owned(), error.clone()));
            },
        }
        assert(fields_view(fields@) =~= self@.body());
        fields
    }
}

/// The level of a session in words: the text of the level, or
/// [`NO_LEVEL`] for a session without permissions.
pub open spec fn level_text(held: Option<Permissions>) -> Seq<char> {
    match held {
        Some(level) => level.text(),
        None => NO_LEVEL@,
    }
}

/// Whether a session with the permissions `held` passes an endpoint that asks
/// for `required`: it does if it has a level and the level is `required` or
/// above it.
pub open spec fn passes(required: Permissions, held: Option<Permissions>) -> bool {
    held matches Some(level) && level.satisfies(required)
}

/// The rejection of a session whose permissions do not suffice: it names the
/// level of the session and the level that was asked for.
pub open spec fn forbidden(required: Permissions, held: Option<Permissions>) -> GuardRejectionView {
    GuardRejectionView::Forbidden { your_level: level_text(held), required_level: required.text() }
}

/// What a result of the check holds.
pub enum GuardStepView {
    Ask { request: StoreRequestView, next: GuardGateView },
    Grant { required: Permissions, held: Permissions },
    Deny(GuardRejectionView),
}

/// What the check waits for.
#[derive(Clone, Copy, Debug, PartialEq, Eq, Structural)]
pub enum Awaiting {
    /// For the record of the session that the request carries.
    Session,
    /// For the credentials of the user that the session belongs to.
    Permissions,
}

/// The check of one request, waiting for an answer of the store.
#[derive(Debug, PartialEq, Eq)]
pub struct GuardGate {
    required: Permissions,
    awaiting: Awaiting,
}

/// What a [`GuardGate`] holds.
pub struct GuardGateView {
    pub required: Permissions,
    pub awaiting: Awaiting,
}

impl View for GuardGate {
    type V = GuardGateView;

    closed spec fn view(&self) -> GuardGateView {
        GuardGateView { required: self.required, awaiting: self.awaiting }
    }
}

/// What the check has the caller do next.
#[derive(Debug, PartialEq, Eq)]
pub enum GuardStep {
    /// Carry out `request` on the store and hand the answer to
    /// [`GuardGate::resume`] of `next`.
    Ask { request: StoreRequest, next: GuardGate },
    /// The request passed: run the handler with this guard.
    Grant(Guard),
    /// The request did not pass: answer it with this rejection.
    Deny(GuardRejection),
}

impl View for GuardStep {
    type V = GuardStepView;

    open spec fn view(&self) -> GuardStepView {
        match *self {
            GuardStep::Ask { request, next } => GuardStepView::Ask { request: request@, next: next@ },
            GuardStep::Grant(guard) => GuardStepView::Grant {
                required: guard.required(),
                held: guard.held(),
            },
            GuardStep::Deny(rejection) => GuardStepView::Deny(rejection@),
        }
    }
}

/// The outcome of the check for a session with the permissions `held`.
pub open spec fn authorize_outcome(required: Permissions, held: Option<Permissions>) -> GuardStepView {
    match held {
        Some(level) => if level.satisfies(required) {
            GuardStepView::Grant { required, held: level }
        } else {
            GuardStepView::Deny(forbidden(required, held))
        },
        None => GuardStepView::Deny(forbidden(required, held)),
    }
}

/// The rejection with status 500 and the given message.
pub open spec fn deny_server_error(error: Seq<char>) -> GuardStepView {
    GuardStepView::Deny(GuardRejectionView::ServerError { error })
}

/// The first step of the check. Where the session of the request can be
/// looked for, its record is read; otherwise the request is refused with
/// status 500.
pub open spec fn guard_first_step(
    required: Permissions,
    cookies: CookieHeaderView,
    store_available: bool,
) -> GuardStepView {
    match from_request_outcome(cookies, store_available) {
        Ok(request) => GuardStepView::Ask {
            request,
            next: GuardGateView { required, awaiting: Awaiting::Session },
        },
        Err(_) => deny_server_error(SESSION_NOT_EXTRACTED@),
    }
}

/// The step that follows the store's answer `reply`, where the check waited
/// in `gate`.
///
/// Waiting for the session: a request whose session is not found is refused
/// with status 500; an anonymous session has no permissions, and the check
/// ends on that; for the session of a user the credentials are read. Waiting
/// for the credentials: the level of the user decides; where it cannot be
/// resolved, as where the row is missing or holds no level, the request is
/// refused with status 500 and the error in words. An answer of another kind
/// than was asked for refuses the request with status 500.
pub open spec fn guard_next_step(gate: GuardGateView, reply: StoreReplyView) -> GuardStepView {
    match gate.awaiting {
        Awaiting::Session => match reply {
            StoreReplyView::Session(read) => match from_read_outcome(read) {
                Ok(info) => match info.username {
                    None => authorize_outcome(gate.required, None),
                    Some(username) => GuardStepView::Ask {
                        request: StoreRequestView::ReadPermissions { username },
                        next: GuardGateView { required: gate.required, awaiting: Awaiting::Permissions },
                    },
                },
                Err(_) => deny_server_error(SESSION_NOT_EXTRACTED@),
            },
            _ => deny_server_error(SESSION_NOT_EXTRACTED@),
        },
        Awaiting::Permissions => match reply {
            StoreReplyView::Permissions(row) => match read_permissions_outcome(row) {
                Ok(held) => authorize_outcome(gate.required, Some(held)),
                Err(error) => deny_server_error(error.text()),
            },
            _ => deny_server_error(UNEXPECTED_REPLY@),
        },
    }
}

impl Guard {
    #[verifier::type_invariant]
    spec fn level_suffices(self) -> bool {
        self.held.satisfies(self.required)
    }

    /// The level that the endpoint asked for.
    pub closed spec fn required(self) -> Permissions {
        self.required
    }

    /// The level of the session that passed.
    pub closed spec fn held(self) -> Permissions {
        self.held
    }

    /// The level that the endpoint asked for.
    pub fn required_level(&self) -> (level: Permissions)
        ensures
            level == self.required(),
    {
        self.required
    }

    /// The level of the session that passed.
    pub fn held_level(&self) -> (level: Permissions)
        ensures
            level == self.held(),
            level.satisfies(self.required()),
    {
        proof {
            use_type_invariant(self);
        }
        self.held
    }

    /// Checks a session with the permissions `held` against an endpoint that
    /// asks for `required`.
    pub fn authorize(required: Permissions, held: Option<Permissions>) -> (step: GuardStep)
        ensures
            step@ == authorize_outcome(required, held),
            step is Grant <==> passes(required, held),
            !(step is Ask),
    {
        match held {
            None => GuardStep::Deny(
                GuardRejection::Forbidden {
                    your_level: NO_LEVEL.to_owned(),
                    required_level: required.to_string(),
                },
            ),
            Some(level) => {
                if level.meets(&required) {
                    GuardStep::Grant(Guard { required, held: level })
                } else {
                    GuardStep::Deny(
                        GuardRejection::Forbidden {
                            your_level: level.to_string(),
                            required_level: required.to_string(),
                        },
                    )
                }
            },
        }
    }

    /// Starts the check of a request against an endpoint that asks for
    /// `required`.
    pub fn from_request(required: Permissions, cookies: &CookieHeader, store_available: bool) -> (step:
        GuardStep)
        ensures
            step@ == guard_first_step(required, cookies@, store_available),
    {
        match SessionInfo::from_request(cookies, store_available) {
            Ok(request) => GuardStep::Ask {
                request,
                next: GuardGate { required, awaiting: Awaiting::Session },
            },
            Err(_) => GuardStep::Deny(
                GuardRejection::ServerError { error: SESSION_NOT_EXTRACTED.to_owned() },
            ),
        }
    }
}

impl GuardGate {
    /// The level that the endpoint asks for.
    pub fn required_level(&self) -> (level: Permissions)
        ensures
            level == self@.required,
    {
        self.required
    }

    /// Takes the check one step further with the store's answer `reply`.
    pub fn resume(self, reply: StoreReply) -> (step: GuardStep)
        ensures
            step@ == guard_next_step(self@, reply@),
    {
        match self.awaiting {
            Awaiting::Session => match reply {
                StoreReply::Session(read) => match SessionInfo::from_read(read) {
                    Ok(info) => match info.read_permissions() {
                        PermissionLookup::Anonymous => Guard::authorize(self.required, None),
                        PermissionLookup::Ask(request) => GuardStep::Ask {
                            request,
                            next: GuardGate { required: self.required, awaiting: Awaiting::Permissions },
                        },
                    },
                    Err(_) => GuardStep::Deny(
                        GuardRejection::ServerError { error: SESSION_NOT_EXTRACTED.to_owned() },
                    ),
                },
                _ => GuardStep::Deny(
                    GuardRejection::ServerError { error: SESSION_NOT_EXTRACTED.to_owned() },
                ),
            },
            Awaiting::Permissions => match reply {
                StoreReply::Permissions(row) => match SessionInfo::read_permissions_result(row) {
                    Ok(held) => Guard::authorize(self.required, Some(held)),
                    Err(error) => GuardStep::Deny(
                        GuardRejection::ServerError { error: error.to_string() },
                    ),
                },
                _ => GuardStep::Deny(
                    GuardRejection::ServerError { error: UNEXPECTED_REPLY.to_owned() },
                ),
            },
        }
    }
}

/// The check grants exactly where the session has a level and the level is
/// the one asked for or above it; every other session is refused with status
/// 403 and the two levels in words.
pub proof fn guard_grants_exactly_sufficient_levels(required: Permissions, held: Option<Permissions>)
    ensures
        passes(required, held) ==> authorize_outcome(required, held) == (GuardStepView::Grant {
            required,
            held: held->Some_0,
        }),
        !passes(required, held) ==> authorize_outcome(required, held) == GuardStepView::Deny(
            forbidden(required, held),
        ),
        forbidden(required, held).status() == FORBIDDEN,
{
}

/// A session of the level `Admin` passes every endpoint; a session of the
/// level `User` passes the endpoints that ask for `User` and no others; a
/// session without permissions passes none.
pub proof fn admin_passes_all_user_passes_user_only(required: Permissions)
    ensures
        passes(required, Some(Permissions::Admin)),
        passes(required, Some(Permissions::User)) <==> required == Permissions::User,
        !passes(required, None),
{
}

/// A level that passes an endpoint passes every endpoint that asks for less,
/// and every level above it passes the endpoint too.
pub proof fn passing_is_monotone(required: Permissions, lower: Permissions, held: Permissions, higher: Permissions)
    requires
        passes(required, Some(held)),
        lower.level() <= required.level(),
        held.level() <= higher.level(),
    ensures
        passes(lower, Some(held)),
        passes(required, Some(higher)),
{
}

/// Whatever the store answers, the check hands out a guard only for the level
/// that the endpoint asks for and only to a session whose level suffices.
pub proof fn guard_is_granted_only_on_sufficient_level(gate: GuardGateView, reply: StoreReplyView)
    ensures
        guard_next_step(gate, reply) matches GuardStepView::Grant { required, held } ==> required
            == gate.required && held.satisfies(required),
        guard_next_step(gate, reply) matches GuardStepView::Ask { next, .. } ==> next.required
            == gate.required,
{
}

/// The session of a user is never answered as a session without
/// permissions: while the check waits for the credentials, it either decides
/// on a level that the store holds for the user or refuses with status 500.
pub proof fn user_session_is_never_taken_for_anonymous(gate: GuardGateView, reply: StoreReplyView)
    requires
        gate.awaiting == Awaiting::Permissions,
    ensures
        match guard_next_step(gate, reply) {
            GuardStepView::Grant { required, held } => required == gate.required && held.satisfies(
                required,
            ),
            GuardStepView::Deny(GuardRejectionView::Forbidden { your_level, required_level }) => {
                exists|held: Permissions|
                    your_level == #[trigger] held.text() && !held.satisfies(gate.required)
                        && required_level == gate.required.text()
            },
            GuardStepView::Deny(rejection) => rejection.status() == INTERNAL_SERVER_ERROR,
            GuardStepView::Ask { .. } => false,
        },
        forall|level: Permissions| #[trigger] level.text() != NO_LEVEL@,
{
    crate::auth::texts_are_distinct();
    reveal_strlit("None");
    reveal_strlit("User");
    reveal_strlit("Admin");
    reveal_strlit("Moderator");
    assert("None"@.len() == 4);
    assert("None"@[0] == 'N');
    assert("User"@[0] == 'U');
    assert forall|level: Permissions| #[trigger] level.text() != NO_LEVEL@ by {
        match level {
            Permissions::User => {
                assert("User"@[0] != "None"@[0]);
            },
            Permissions::Moderator => {
                assert("Moderator"@.len() == 9);
            },
            Permissions::Admin => {
                assert("Admin"@.len() == 5);
            },
        }
    }
    if let StoreReplyView::Permissions(row) = reply {
        if let Ok(held) = read_permissions_outcome(row) {
            assert(held.text() == held.text());
        }
    }
}

} // verus!
