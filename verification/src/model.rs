//! What the library takes the persistent store to do, and what follows from
//! it for the operations on sessions.
//!
//! The store holds session records by id and credential rows by username. It
//! carries out one request at a time; a request that fails leaves it as it
//! was. The description is the ground on which the laws at the end of this
//! file stand: they hold of every store that behaves as [`StoreState::answers`]
//! says.

use vstd::prelude::*;
use crate::auth::{parse_accepts_only_texts, parse_inverts_text, Permissions};
use crate::session::{
    check_session_outcome, fresh_session_outcome, fresh_session_run, fresh_session_run_from,
    read_permissions_outcome,
    update_session_outcome, verify_session_outcome, FreshSessionView, SessionErrorView,
    SessionInfoView, VerificationView,
};
use crate::store::{
    PermissionColumnView, StoreFailureView, StoreReplyView, StoreRequestView,
    SESSION_ID_CONSTRAINT, UNIQUE_VIOLATION,
};
use crate::session::management::{
    minting_run_from, resume_step, session_cookie, GateStepView, SessionGateView,
};
use crate::time::{SessionTime, Timestamp};

verus! {

/// A credential row, without its key.
pub struct CredentialRow {
    pub password_hash: Seq<u8>,
    pub salt: Seq<u8>,
    /// The permission column: a text, or nothing.
    pub permissions: Option<Seq<char>>,
}

/// Whether a permission column holds the text of a level.
pub open spec fn holds_level(permissions: Option<Seq<char>>) -> bool {
    permissions matches Some(text) && Permissions::parse_spec(text) is Some
}

/// The contents of the store.
pub struct StoreState {
    /// The session records, by session id.
    pub sessions: Map<Seq<char>, SessionInfoView>,
    /// The credential rows, by username.
    pub credentials: Map<Seq<char>, CredentialRow>,
}

impl StoreState {
    /// Whether the contents are consistent: every session record is filed
    /// under its own id, a session that names a user names one whose
    /// credentials are stored, and every credential row holds a permission
    /// that is the text of a level.
    pub open spec fn wf(self) -> bool {
        &&& forall|id: Seq<char>| #[trigger]
            self.sessions.contains_key(id) ==> self.sessions[id].session_id == id
        &&& forall|id: Seq<char>| #[trigger]
            self.sessions.contains_key(id) ==> (self.sessions[id].username matches Some(username)
                ==> self.credentials.contains_key(username))
        &&& forall|username: Seq<char>| #[trigger]
            self.credentials.contains_key(username) ==> holds_level(
                self.credentials[username].permissions,
            )
    }

    /// The session record under `id`, if there is one.
    pub open spec fn session(self, id: Seq<char>) -> Option<SessionInfoView> {
        if self.sessions.contains_key(id) {
            Some(self.sessions[id])
        } else {
            None
        }
    }

    /// The permission column of the credential row of `username`, if there is
    /// such a row.
    pub open spec fn permission_column(self, username: Seq<char>) -> Option<PermissionColumnView> {
        if self.credentials.contains_key(username) {
            match self.credentials[username].permissions {
                Some(text) => Some(PermissionColumnView::Text(text)),
                None => Some(PermissionColumnView::Null),
            }
        } else {
            None
        }
    }

    /// The store with the given session record added or replaced.
    pub open spec fn with_session(self, info: SessionInfoView) -> StoreState {
        StoreState { sessions: self.sessions.insert(info.session_id, info), ..self }
    }

    /// The store without the session record under `id`.
    pub open spec fn without_session(self, id: Seq<char>) -> StoreState {
        StoreState { sessions: self.sessions.remove(id), ..self }
    }

    /// Whether a store with the contents `self` may answer `request` with
    /// `reply` and hold `after` from then on.
    ///
    /// Every request may fail, and the store is then unchanged. Otherwise:
    /// - a session record is inserted if no record has its id and the
    ///   credentials of its user, if it names one, are stored; the store never
    ///   accepts a second record under an id, and it reports a violation of
    ///   [`SESSION_ID_CONSTRAINT`] only where the id is taken;
    /// - a read finds the record under the id, or none;
    /// - an update changes the one record under the id, or nothing if there is
    ///   none; it goes through only if the credentials of the user are stored;
    /// - a removal deletes the record under the id, if there is one;
    /// - a read of permissions finds the column of the user's row, or no row;
    /// - a credential row is inserted if the username is free; the store
    ///   never accepts a second row under a username, and it reports
    ///   [`UNIQUE_VIOLATION`] only where the username is taken.
    pub open spec fn answers(
        self,
        request: StoreRequestView,
        reply: StoreReplyView,
        after: StoreState,
    ) -> bool {
        match request {
            StoreRequestView::InsertSession(info) => match reply {
                StoreReplyView::Written(Ok(rows)) => {
                    &&& !self.sessions.contains_key(info.session_id)
                    &&& info.username matches Some(username) ==> self.credentials.contains_key(
                        username,
                    )
                    &&& rows == 1
                    &&& after == self.with_session(info)
                },
                StoreReplyView::Written(Err(failure)) => {
                    &&& after == self
                    &&& failure.violates(SESSION_ID_CONSTRAINT@) ==> self.sessions.contains_key(
                        info.session_id,
                    )
                },
                _ => false,
            },
            StoreRequestView::ReadSession { session_id } => match reply {
                StoreReplyView::Session(Ok(found)) => found == self.session(session_id) && after
                    == self,
                StoreReplyView::Session(Err(_)) => after == self,
                _ => false,
            },
            StoreRequestView::UpdateSession { session_id, username, expiration_date } => match reply {
                StoreReplyView::Written(Ok(rows)) => if self.sessions.contains_key(session_id) {
                    &&& self.credentials.contains_key(username)
                    &&& rows == 1
                    &&& after == self.with_session(
                        SessionInfoView { session_id, expiration_date, username: Some(username) },
                    )
                } else {
                    rows == 0 && after == self
                },
                StoreReplyView::Written(Err(_)) => after == self,
                _ => false,
            },
            StoreRequestView::RemoveSession { session_id } => match reply {
                StoreReplyView::Written(Ok(rows)) => {
                    &&& rows == (if self.sessions.contains_key(session_id) {
                        1u64
                    } else {
                        0u64
                    })
                    &&& after == self.without_session(session_id)
                },
                StoreReplyView::Written(Err(_)) => after == self,
                _ => false,
            },
            StoreRequestView::ReadPermissions { username } => match reply {
                StoreReplyView::Permissions(Ok(Some(PermissionColumnView::Unreadable(_)))) => {
                    self.credentials.contains_key(username) && after == self
                },
                StoreReplyView::Permissions(Ok(found)) => found == self.permission_column(username)
                    && after == self,
                StoreReplyView::Permissions(Err(_)) => after == self,
                _ => false,
            },
            StoreRequestView::InsertUser { username, salt, password_hash, permissions } => match reply {
                StoreReplyView::Written(Ok(rows)) => {
                    &&& !self.credentials.contains_key(username)
                    &&& rows == 1
                    &&& after == StoreState {
                        credentials: self.credentials.insert(
                            username,
                            CredentialRow {
                                password_hash,
                                salt,
                                permissions: Some(permissions.text()),
                            },
                        ),
                        ..self
                    }
                },
                StoreReplyView::Written(Err(failure)) => {
                    &&& after == self
                    &&& failure.has_code(UNIQUE_VIOLATION@) ==> self.credentials.contains_key(username)
                },
                _ => false,
            },
        }
    }
}

/// Whatever a consistent store answers to a request that the library makes,
/// it is consistent afterwards.
pub proof fn answers_keep_store_consistent(
    before: StoreState,
    request: StoreRequestView,
    reply: StoreReplyView,
    after: StoreState,
)
    requires
        before.wf(),
        before.answers(request, reply, after),
    ensures
        after.wf(),
{
    match request {
        StoreRequestView::InsertSession(info) => {
            if reply is Written && reply->Written_0 is Ok {
                assert(after == before.with_session(info));
                assert forall|id: Seq<char>| #[trigger] after.sessions.contains_key(id) implies (
                after.sessions[id].session_id == id && (after.sessions[id].username matches Some(
                    username,
                ) ==> after.credentials.contains_key(username))) by {
                    if id != info.session_id {
                        assert(before.sessions.contains_key(id));
                    }
                }
            }
        },
        StoreRequestView::InsertUser { username, salt, password_hash, permissions } => {
            parse_inverts_text(permissions);
            if reply is Written && reply->Written_0 is Ok {
                assert forall|name: Seq<char>| #[trigger]
                    after.credentials.contains_key(name) implies holds_level(
                    after.credentials[name].permissions,
                ) by {
                    if name != username {
                        assert(before.credentials.contains_key(name));
                    }
                }
            }
        },
        _ => {},
    }
}

/// In a consistent store the credentials of a user resolve to a level: where
/// the store reads the permission of a user that a session names, the answer
/// is the text of a level, and the level is what the resolution gives.
pub proof fn consistent_store_resolves_users(
    before: StoreState,
    session_id: Seq<char>,
    username: Seq<char>,
    found: Option<PermissionColumnView>,
    after: StoreState,
)
    requires
        before.wf(),
        before.sessions.contains_key(session_id),
        before.sessions[session_id].username == Some(username),
        !(found matches Some(PermissionColumnView::Unreadable(_))),
        before.answers(
            StoreRequestView::ReadPermissions { username },
            StoreReplyView::Permissions(Ok(found)),
            after,
        ),
    ensures
        after == before,
        read_permissions_outcome(Ok(found)) matches Ok(level) && found == Some(
            PermissionColumnView::Text(level.text()),
        ),
{
    assert(before.credentials.contains_key(username));
    let text = before.credentials[username].permissions->Some_0;
    parse_accepts_only_texts(text);
}


/// A fresh session is issued only under an id that the store did not hold
/// when it inserted the record, and the store then holds the record under
/// that id. An id that the store reports as taken is a collision, which leaves
/// the store as it was and leads to another attempt: it is never reported as
/// a failure.
pub proof fn fresh_session_id_is_unused(
    before: StoreState,
    candidate: SessionInfoView,
    written: Result<u64, StoreFailureView>,
    after: StoreState,
)
    requires
        before.answers(
            StoreRequestView::InsertSession(candidate),
            StoreReplyView::Written(written),
            after,
        ),
    ensures
        fresh_session_outcome(candidate, written) matches FreshSessionView::Issued(id) ==> {
            &&& id == candidate.session_id
            &&& !before.sessions.contains_key(id)
            &&& after.session(id) == Some(candidate)
        },
        fresh_session_outcome(candidate, written) is Collision ==> {
            &&& before.sessions.contains_key(candidate.session_id)
            &&& after == before
        },
        written matches Err(failure) && failure.violates(SESSION_ID_CONSTRAINT@)
            ==> fresh_session_outcome(candidate, written) is Collision,
        fresh_session_outcome(candidate, written) is Failed ==> after == before,
{
}

/// Whether a run of attempts to store a fresh session went as follows: the
/// store, which other callers may have changed between the attempts, held
/// `stores[i]` when it got the candidate number `i` and `afters[i]` when it
/// had answered; it reported every candidate but the last as taken, and
/// inserted the last.
pub open spec fn collides_then_inserts(
    stores: Seq<StoreState>,
    candidates: Seq<SessionInfoView>,
    answers: Seq<Result<u64, StoreFailureView>>,
    afters: Seq<StoreState>,
) -> bool {
    &&& candidates.len() >= 1
    &&& stores.len() == candidates.len()
    &&& answers.len() == candidates.len()
    &&& afters.len() == candidates.len()
    &&& forall|i: int|
        0 <= i < candidates.len() ==> (#[trigger] stores[i]).answers(
            StoreRequestView::InsertSession(candidates[i]),
            StoreReplyView::Written(answers[i]),
            afters[i],
        )
    &&& forall|i: int|
        0 <= i < candidates.len() - 1 ==> ((#[trigger] answers[i]) matches Err(failure)
            && failure.violates(SESSION_ID_CONSTRAINT@))
    &&& answers.last() is Ok
}

/// The part of [`fresh_session_survives_collisions`] on the outcome of the
/// run, from the attempt number `from` on.
proof fn run_ends_in_last_candidate(
    candidates: Seq<SessionInfoView>,
    answers: Seq<Result<u64, StoreFailureView>>,
    from: int,
)
    requires
        candidates.len() >= 1,
        answers.len() == candidates.len(),
        0 <= from < candidates.len(),
        forall|i: int|
            0 <= i < candidates.len() - 1 ==> ((#[trigger] answers[i]) matches Err(failure)
                && failure.violates(SESSION_ID_CONSTRAINT@)),
        answers.last() is Ok,
    ensures
        fresh_session_run_from(candidates, answers, from) == FreshSessionView::Issued(
            candidates.last().session_id,
        ),
    decreases candidates.len() - from,
{
    if from < candidates.len() - 1 {
        assert(answers[from] is Err);
        run_ends_in_last_candidate(candidates, answers, from + 1);
    }
}

/// However many ids in a row the store reports as taken, also where other
/// callers put them there in the meantime, none of the collisions is
/// reported as a failure: the run ends with the session issued under the
/// first id that the store accepts. Every refused attempt leaves the store as
/// it was. The accepted one finds the id unused and adds the record of the
/// new session, anonymous and with its expiration date, and changes no other
/// record.
pub proof fn fresh_session_survives_collisions(
    stores: Seq<StoreState>,
    candidates: Seq<SessionInfoView>,
    answers: Seq<Result<u64, StoreFailureView>>,
    afters: Seq<StoreState>,
)
    requires
        collides_then_inserts(stores, candidates, answers, afters),
    ensures
        fresh_session_run(candidates, answers) == FreshSessionView::Issued(
            candidates.last().session_id,
        ),
        forall|i: int|
            0 <= i < candidates.len() - 1 ==> (#[trigger] stores[i]).sessions.contains_key(
                candidates[i].session_id,
            ) && afters[i] == stores[i],
        !stores.last().sessions.contains_key(candidates.last().session_id),
        afters.last() == stores.last().with_session(candidates.last()),
        afters.last().session(candidates.last().session_id) == Some(candidates.last()),
        forall|other: Seq<char>|
            other != candidates.last().session_id ==> afters.last().session(other)
                == stores.last().session(other),
        afters.last().credentials == stores.last().credentials,
{
    run_ends_in_last_candidate(candidates, answers, 0);
    let last = candidates.len() - 1;
    assert(stores[last].answers(
        StoreRequestView::InsertSession(candidates[last]),
        StoreReplyView::Written(answers[last]),
        afters[last],
    ));
    assert forall|i: int| 0 <= i < candidates.len() - 1 implies (#[trigger] stores[i]).sessions.contains_key(
        candidates[i].session_id,
    ) && afters[i] == stores[i] by {
        assert(answers[i] is Err);
        assert(stores[i].answers(
            StoreRequestView::InsertSession(candidates[i]),
            StoreReplyView::Written(answers[i]),
            afters[i],
        ));
    }
}

/// The part of [`gate_survives_collisions`] from the answer number `from` on.
proof fn minting_ends_in_last_candidate(
    candidates: Seq<SessionInfoView>,
    answers: Seq<Result<u64, StoreFailureView>>,
    nows: Seq<Timestamp>,
    from: int,
)
    requires
        candidates.len() >= 1,
        answers.len() == candidates.len(),
        nows.len() == candidates.len(),
        0 <= from < candidates.len(),
        forall|i: int|
            0 <= i < candidates.len() - 1 ==> ((#[trigger] answers[i]) matches Err(failure)
                && failure.violates(SESSION_ID_CONSTRAINT@)),
        answers.last() is Ok,
    ensures
        minting_run_from(
            candidates[from],
            written_replies(answers),
            nows,
            candidates.drop_first().push(candidates.last()),
            from,
        ) == GateStepView::ForwardWithSession(session_cookie(candidates.last().session_id)),
    decreases candidates.len() - from,
{
    let replies = written_replies(answers);
    let drawn = candidates.drop_first().push(candidates.last());
    assert(replies[from] == StoreReplyView::Written(answers[from]));
    if from < candidates.len() - 1 {
        assert(answers[from] is Err);
        assert(drawn[from] == candidates[from + 1]);
        minting_ends_in_last_candidate(candidates, answers, nows, from + 1);
    }
}

/// The answers of the store to a run of insertions.
pub open spec fn written_replies(answers: Seq<Result<u64, StoreFailureView>>) -> Seq<
    StoreReplyView,
> {
    answers.map_values(|written: Result<u64, StoreFailureView>| StoreReplyView::Written(written))
}

/// The check of a request goes through a run of collisions without
/// reporting any of them: where the store reports every candidate but the
/// last as taken and inserts the last, the check inserts each next candidate
/// in turn and ends with the cookie of the session that the store accepted.
pub proof fn gate_survives_collisions(
    stores: Seq<StoreState>,
    candidates: Seq<SessionInfoView>,
    answers: Seq<Result<u64, StoreFailureView>>,
    afters: Seq<StoreState>,
    nows: Seq<Timestamp>,
)
    requires
        collides_then_inserts(stores, candidates, answers, afters),
        nows.len() == candidates.len(),
    ensures
        minting_run_from(
            candidates[0],
            written_replies(answers),
            nows,
            candidates.drop_first().push(candidates.last()),
            0,
        ) == GateStepView::ForwardWithSession(session_cookie(candidates.last().session_id)),
        !stores.last().sessions.contains_key(candidates.last().session_id),
        afters.last() == stores.last().with_session(candidates.last()),
{
    minting_ends_in_last_candidate(candidates, answers, nows, 0);
    fresh_session_survives_collisions(stores, candidates, answers, afters);
}

/// A record that is read at or after its expiration date is found expired,
/// which is invalid, and is to be removed. Once the store has carried out the
/// removal it holds no record under the id, and a later check of the id finds
/// [`SessionErrorView::SessionIdNotFound`].
pub proof fn expired_session_is_removed(
    before: StoreState,
    session_id: Seq<char>,
    now: Timestamp,
    read: Option<SessionInfoView>,
    rows: u64,
    after: StoreState,
    later_read: Option<SessionInfoView>,
    last: StoreState,
)
    requires
        before.sessions.contains_key(session_id),
        before.sessions[session_id].expiration_date.at_or_before(now),
        before.answers(
            StoreRequestView::ReadSession { session_id },
            StoreReplyView::Session(Ok(read)),
            before,
        ),
        before.answers(
            StoreRequestView::RemoveSession { session_id },
            StoreReplyView::Written(Ok(rows)),
            after,
        ),
        after.answers(
            StoreRequestView::ReadSession { session_id },
            StoreReplyView::Session(Ok(later_read)),
            last,
        ),
    ensures
        verify_session_outcome(session_id, Ok(read), now) == Ok::<
            VerificationView,
            SessionErrorView,
        >(VerificationView::Expired { removal: StoreRequestView::RemoveSession { session_id } }),
        !after.sessions.contains_key(session_id),
        check_session_outcome(Ok(later_read)) == Err::<SessionInfoView, SessionErrorView>(
            SessionErrorView::SessionIdNotFound,
        ),
{
}

/// A record that is read before its expiration date is found valid, and the
/// read leaves the store as it was.
pub proof fn unexpired_session_is_valid(
    before: StoreState,
    session_id: Seq<char>,
    now: Timestamp,
    read: Option<SessionInfoView>,
    after: StoreState,
)
    requires
        before.sessions.contains_key(session_id),
        !before.sessions[session_id].expiration_date.at_or_before(now),
        before.answers(
            StoreRequestView::ReadSession { session_id },
            StoreReplyView::Session(Ok(read)),
            after,
        ),
    ensures
        verify_session_outcome(session_id, Ok(read), now) == Ok::<
            VerificationView,
            SessionErrorView,
        >(VerificationView::Valid),
        after == before,
{
}

/// An update of a session that the store does not hold changes nothing, and
/// is answered with [`SessionErrorView::SessionIdNotFound`] unless the store
/// failed, in which case it is answered with the failure.
pub proof fn update_of_unknown_session_changes_nothing(
    before: StoreState,
    session_id: Seq<char>,
    username: Seq<char>,
    expiration_date: Timestamp,
    written: Result<u64, StoreFailureView>,
    after: StoreState,
)
    requires
        !before.sessions.contains_key(session_id),
        before.answers(
            StoreRequestView::UpdateSession { session_id, username, expiration_date },
            StoreReplyView::Written(written),
            after,
        ),
    ensures
        after == before,
        update_session_outcome(written) is Err,
        written is Ok ==> update_session_outcome(written) == Err::<(), SessionErrorView>(
            SessionErrorView::SessionIdNotFound,
        ),
{
}

/// An update of a session that the store holds attaches the username to it
/// and sets its expiration date, and changes no other record.
pub proof fn update_of_known_session_renews_it(
    before: StoreState,
    session_id: Seq<char>,
    username: Seq<char>,
    expiration_date: Timestamp,
    rows: u64,
    after: StoreState,
)
    requires
        before.sessions.contains_key(session_id),
        before.answers(
            StoreRequestView::UpdateSession { session_id, username, expiration_date },
            StoreReplyView::Written(Ok(rows)),
            after,
        ),
    ensures
        update_session_outcome(Ok(rows)) == Ok::<(), SessionErrorView>(()),
        after.session(session_id) == Some(
            SessionInfoView { session_id, expiration_date, username: Some(username) },
        ),
        forall|other: Seq<char>| other != session_id ==> after.session(other) == before.session(other),
{
}

/// Renewal moves the expiration date forward: a session that is renewed at
/// the time of its creation or later expires no earlier than it did.
pub proof fn renewal_moves_expiration_forward(
    created: Timestamp,
    renewed: Timestamp,
    session_time: SessionTime,
)
    requires
        created.at_or_before(renewed),
        renewed.can_be_extended(session_time),
    ensures
        created.later(session_time).at_or_before(renewed.later(session_time)),
{
}

/// The check of a request lets the request pass unchanged only if the store
/// holds a record under the id that the request carries and the record has
/// not expired.
pub proof fn gate_forwards_only_valid_sessions(
    before: StoreState,
    session_id: Seq<char>,
    reply: StoreReplyView,
    after: StoreState,
    now: Timestamp,
    candidate: SessionInfoView,
)
    requires
        before.answers(StoreRequestView::ReadSession { session_id }, reply, after),
        resume_step(SessionGateView::Verifying { session_id }, reply, now, candidate)
            is Forward,
    ensures
        before.sessions.contains_key(session_id),
        !before.sessions[session_id].expiration_date.at_or_before(now),
        after == before,
{
}

/// The check of a request hands out the cookie of a fresh session only once
/// the store has inserted the record of that session, under an id that it did
/// not hold before. Where the store reports the id as taken, the check goes
/// on to insert the next candidate.
pub proof fn gate_issues_only_stored_sessions(
    before: StoreState,
    pending: SessionInfoView,
    reply: StoreReplyView,
    after: StoreState,
    now: Timestamp,
    candidate: SessionInfoView,
)
    requires
        before.answers(StoreRequestView::InsertSession(pending), reply, after),
    ensures
        resume_step(SessionGateView::Minting { candidate: pending }, reply, now, candidate)
            matches GateStepView::ForwardWithSession(cookie) ==> {
            &&& cookie == session_cookie(pending.session_id)
            &&& !before.sessions.contains_key(pending.session_id)
            &&& after.session(pending.session_id) == Some(pending)
        },
        reply matches StoreReplyView::Written(Err(failure)) && failure.violates(
            SESSION_ID_CONSTRAINT@,
        ) ==> resume_step(SessionGateView::Minting { candidate: pending }, reply, now, candidate)
            == (GateStepView::Ask {
            request: StoreRequestView::InsertSession(candidate),
            next: SessionGateView::Minting { candidate },
        }),
{
}

/// The check of a request that carries the id of an expired session has the
/// record removed and then makes a fresh session, whatever the removal comes
/// to.
pub proof fn gate_replaces_expired_sessions(
    before: StoreState,
    session_id: Seq<char>,
    read: Option<SessionInfoView>,
    removal_reply: StoreReplyView,
    now: Timestamp,
    candidate: SessionInfoView,
)
    requires
        before.sessions.contains_key(session_id),
        before.sessions[session_id].expiration_date.at_or_before(now),
        before.answers(
            StoreRequestView::ReadSession { session_id },
            StoreReplyView::Session(Ok(read)),
            before,
        ),
    ensures
        resume_step(
            SessionGateView::Verifying { session_id },
            StoreReplyView::Session(Ok(read)),
            now,
            candidate,
        ) == (GateStepView::Ask {
            request: StoreRequestView::RemoveSession { session_id },
            next: SessionGateView::Discarding,
        }),
        resume_step(SessionGateView::Discarding, removal_reply, now, candidate) == (
        GateStepView::Ask {
            request: StoreRequestView::InsertSession(candidate),
            next: SessionGateView::Minting { candidate },
        }),
{
}

} // verus!
