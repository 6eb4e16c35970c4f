//! Session records and the operations of their lifecycle.
//!
//! A session is created anonymous, with an expiration date one lifetime after
//! its creation. A successful authentication attaches a username to it and
//! pushes the expiration date forward. A record that is read at or after its
//! expiration date is invalid and is removed on that occasion: nothing sweeps
//! the store in the background.

pub mod management;

pub use management::ensure_session;

use vstd::prelude::*;
use crate::auth::Permissions;
use crate::http::{
    bad_request, server_error, CookieHeader, CookieHeaderView, Rejection, RejectionView, BAD_REQUEST,
};
use crate::store::{
    text_of, read_view, written_view, permissions_view, PermissionColumn, PermissionColumnView,
    StoreFailure, StoreFailureView, StoreRequest, StoreRequestView, SESSION_ID_CONSTRAINT,
};
use crate::time::{current_time, SessionTime, Timestamp};

verus! {

/// The id of a session: an opaque token.
pub type SessionId = String;

/// The number of random bits in a session id. A multiple of 8.
pub const SESSION_ID_BITS: usize = 256;

/// The number of random bytes in a session id.
pub const SESSION_ID_BYTES: usize = 32;

/// The number of characters of a session id.
pub const SESSION_ID_LENGTH: usize = 44;

/// A session record as the store keeps it.
#[derive(Debug, PartialEq, Eq)]
pub struct SessionInfo {
    session_id: SessionId,
    expiration_date: Timestamp,
    username: Option<String>,
}

/// What a session record holds.
pub struct SessionInfoView {
    pub session_id: Seq<char>,
    pub expiration_date: Timestamp,
    pub username: Option<Seq<char>>,
}

impl View for SessionInfo {
    type V = SessionInfoView;

    closed spec fn view(&self) -> SessionInfoView {
        SessionInfoView {
            session_id: self.session_id@,
            expiration_date: self.expiration_date,
            username: text_of(self.username),
        }
    }
}

impl Clone for SessionInfo {
    fn clone(&self) -> (copy: SessionInfo)
        ensures
            copy == *self,
    {
        SessionInfo {
            session_id: self.session_id.clone(),
            expiration_date: self.expiration_date,
            username: match &self.username {
                Some(username) => Some(username.clone()),
                None => None,
            },
        }
    }
}

/// Why an operation on a session failed.
#[derive(Clone, Debug, PartialEq, Eq)]
pub enum SessionError {
    SessionIdNotFound,
    SessionExpired,
    DatabaseError(String),
}

/// What a [`SessionError`] holds.
pub enum SessionErrorView {
    SessionIdNotFound,
    SessionExpired,
    DatabaseError(Seq<char>),
}

impl View for SessionError {
    type V = SessionErrorView;

    open spec fn view(&self) -> SessionErrorView {
        match *self {
            SessionError::SessionIdNotFound => SessionErrorView::SessionIdNotFound,
            SessionError::SessionExpired => SessionErrorView::SessionExpired,
            SessionError::DatabaseError(message) => SessionErrorView::DatabaseError(message@),
        }
    }
}

impl SessionErrorView {
    /// The error in words.
    pub open spec fn text(self) -> Seq<char> {
        match self {
            SessionErrorView::SessionIdNotFound => "Session id cannot be found in the database."@,
            SessionErrorView::SessionExpired => "Session of given id has expired."@,
            SessionErrorView::DatabaseError(message) => "DatabaseError. "@ + message,
        }
    }
}

impl SessionError {
    /// The error in words.
    pub fn to_string(&self) -> (text: String)
        ensures
            text@ == self@.text(),
    {
        match self {
            SessionError::SessionIdNotFound => {
                "Session id cannot be found in the database.".to_owned()
            },
            SessionError::SessionExpired => "Session of given id has expired.".to_owned(),
            SessionError::DatabaseError(message) => {
                "DatabaseError. ".to_owned().concat(message.as_str())
            },
        }
    }
}

/// The text that `base64::encode` gives for a sequence of bytes: its encoding
/// in base 64, with the standard alphabet and padding.
pub uninterp spec fn base64_text(bytes: Seq<u8>) -> Seq<char>;

/// The number of characters that encode `bytes` bytes in base 64 with padding:
/// four for every three bytes begun.
pub open spec fn base64_length(bytes: nat) -> nat {
    4 * ((bytes + 2) / 3)
}

/// Encodes the random bytes of a session id with `base64::encode`. The result
/// is [`base64_text`] of the bytes; `base64` sizes its output as four
/// characters for every three bytes begun.
#[verifier::external_body]
fn base64_encode(bytes: &[u8; SESSION_ID_BYTES]) -> (text: String)
    ensures
        text@ == base64_text(bytes@),
        text@.len() == base64_length(bytes@.len()),
{
    base64::encode(bytes)
}

/// Draws the random bytes of a session id from `rand::thread_rng`. Nothing is
/// known of them but their number.
#[verifier::external_body]
pub(crate) fn random_bytes() -> (bytes: [u8; SESSION_ID_BYTES]) {
    rand::Rng::gen(&mut rand::thread_rng())
}

/// Whether a text can be a session id that this library made: the encoding of
/// some [`SESSION_ID_BYTES`] bytes.
pub open spec fn is_session_id(id: Seq<char>) -> bool {
    exists|entropy: Seq<u8>| #[trigger]
        base64_text(entropy) == id && entropy.len() == SESSION_ID_BYTES
}

/// The session id made of the given random bytes.
pub fn session_id_from(entropy: &[u8; SESSION_ID_BYTES]) -> (id: SessionId)
    ensures
        id@ == base64_text(entropy@),
        id@.len() == SESSION_ID_LENGTH,
        is_session_id(id@),
{
    let id = base64_encode(entropy);
    assert(entropy@.len() == 32);
    id
}

/// A new session id, made of fresh random bytes.
pub fn generate_session_id() -> (id: SessionId)
    ensures
        is_session_id(id@),
        id@.len() == SESSION_ID_LENGTH,
{
    let entropy = random_bytes();
    session_id_from(&entropy)
}

impl SessionInfo {
    /// The record with the given contents, as when a row was read from the
    /// store.
    pub fn from_parts(session_id: SessionId, expiration_date: Timestamp, username: Option<String>) -> (info: SessionInfo)
        ensures
            info@ == (SessionInfoView {
                session_id: session_id@,
                expiration_date,
                username: text_of(username),
            }),
    {
        SessionInfo { session_id, expiration_date, username }
    }

    /// The record of a session created at `now`: anonymous, and valid for one
    /// lifetime.
    pub fn new_at(session_id: SessionId, now: Timestamp, session_time: SessionTime) -> (info:
        SessionInfo)
        requires
            now.can_be_extended(session_time),
        ensures
            info@ == (SessionInfoView {
                session_id: session_id@,
                expiration_date: now.later(session_time),
                username: None,
            }),
    {
        SessionInfo { session_id, expiration_date: now.extend(session_time), username: None }
    }

    /// The record of a session created at the present moment: anonymous, and
    /// valid for one lifetime from the clock's reading.
    pub fn new(session_id: SessionId, session_time: SessionTime) -> (info: SessionInfo)
        ensures
            info@.session_id == session_id@,
            info@.username is None,
            exists|now: Timestamp| #[trigger]
                now.later(session_time) == info@.expiration_date && now.is_clock_reading()
                    && now.can_be_extended(session_time),
    {
        let now = current_time();
        SessionInfo::new_at(session_id, now, session_time)
    }

    /// The id of the session.
    pub fn session_id(&self) -> (id: &str)
        ensures
            id@ == self@.session_id,
    {
        self.session_id.as_str()
    }

    /// The moment from which the session is no longer valid.
    pub fn expiration_date(&self) -> (date: Timestamp)
        ensures
            date == self@.expiration_date,
    {
        self.expiration_date
    }

    /// The user that the session belongs to; `None` for an anonymous session.
    pub fn username(&self) -> (name: Option<&str>)
        ensures
            match name {
                Some(name) => self@.username == Some(name@),
                None => self@.username is None,
            },
    {
        match &self.username {
            None => None,
            Some(username) => Some(username.as_str()),
        }
    }

    /// Whether the session is no longer valid at `now`: its expiration date is
    /// `now` or lies before it.
    pub fn is_expired_at(&self, now: &Timestamp) -> (expired: bool)
        ensures
            expired == self@.expiration_date.at_or_before(*now),
    {
        self.expiration_date.is_at_or_before(now)
    }

    /// The request that inserts this record into the store.
    pub fn try_insert(&self) -> (request: StoreRequest)
        ensures
            request@ == StoreRequestView::InsertSession(self@),
    {
        StoreRequest::InsertSession(self.clone())
    }

    /// The request that reads the record with the given id from the store.
    pub fn try_read(session_id: &str) -> (request: StoreRequest)
        ensures
            request@ == (StoreRequestView::ReadSession { session_id: session_id@ }),
    {
        StoreRequest::ReadSession { session_id: session_id.to_owned() }
    }
}


/// What became of an attempt to store a fresh session.
#[derive(Debug, PartialEq, Eq)]
pub enum FreshSession {
    /// The record was inserted: this is the id of the new session.
    Issued(SessionId),
    /// The store already holds the id: another one is to be tried.
    Collision,
    /// The store failed. No session was created.
    Failed(String),
}

/// What a [`FreshSession`] holds.
pub enum FreshSessionView {
    Issued(Seq<char>),
    Collision,
    Failed(Seq<char>),
}

impl View for FreshSession {
    type V = FreshSessionView;

    open spec fn view(&self) -> FreshSessionView {
        match *self {
            FreshSession::Issued(id) => FreshSessionView::Issued(id@),
            FreshSession::Collision => FreshSessionView::Collision,
            FreshSession::Failed(message) => FreshSessionView::Failed(message@),
        }
    }
}

/// What follows from the store's answer to the insertion of `candidate`: the
/// session is issued if the record was inserted, another id is due if the
/// database refused the record for the uniqueness of session ids, and any
/// other failure ends the attempt with its message.
pub open spec fn fresh_session_outcome(
    candidate: SessionInfoView,
    written: Result<u64, StoreFailureView>,
) -> FreshSessionView {
    match written {
        Ok(_) => FreshSessionView::Issued(candidate.session_id),
        Err(failure) => if failure.violates(SESSION_ID_CONSTRAINT@) {
            FreshSessionView::Collision
        } else {
            FreshSessionView::Failed(failure.message)
        },
    }
}

/// What a run of attempts to store a fresh session comes to, from the
/// attempt number `from` on: the outcome of the first attempt that is no
/// collision. A run whose attempts all collide has not ended, which reads as
/// a collision.
pub open spec fn fresh_session_run_from(
    candidates: Seq<SessionInfoView>,
    answers: Seq<Result<u64, StoreFailureView>>,
    from: int,
) -> FreshSessionView
    decreases candidates.len() - from,
{
    if from < 0 || from >= candidates.len() || from >= answers.len() {
        FreshSessionView::Collision
    } else {
        match fresh_session_outcome(candidates[from], answers[from]) {
            FreshSessionView::Collision => fresh_session_run_from(candidates, answers, from + 1),
            outcome => outcome,
        }
    }
}

/// What a run of attempts to store a fresh session comes to, where the
/// candidate number `i` got the answer number `i` from the store.
pub open spec fn fresh_session_run(
    candidates: Seq<SessionInfoView>,
    answers: Seq<Result<u64, StoreFailureView>>,
) -> FreshSessionView {
    fresh_session_run_from(candidates, answers, 0)
}

/// The record of a fresh session made at `now` of the given random bytes:
/// anonymous, valid for one lifetime, under the id that encodes the bytes.
pub fn fresh_session_at(
    entropy: &[u8; SESSION_ID_BYTES],
    now: Timestamp,
    session_time: SessionTime,
) -> (candidate: SessionInfo)
    requires
        now.can_be_extended(session_time),
    ensures
        candidate@ == (SessionInfoView {
            session_id: base64_text(entropy@),
            expiration_date: now.later(session_time),
            username: None,
        }),
{
    SessionInfo::new_at(session_id_from(entropy), now, session_time)
}

/// The record of a fresh session: anonymous, valid for one lifetime from the
/// clock's reading, under a new random id. The caller inserts it with
/// [`SessionInfo::try_insert`] and hands the answer to
/// [`fresh_session_result`]; after a [`FreshSession::Collision`] it starts
/// again from here.
pub fn fresh_session(session_time: SessionTime) -> (candidate: SessionInfo)
    ensures
        is_session_id(candidate@.session_id),
        candidate@.session_id.len() == SESSION_ID_LENGTH,
        candidate@.username is None,
        exists|now: Timestamp| #[trigger]
            now.later(session_time) == candidate@.expiration_date && now.is_clock_reading()
                && now.can_be_extended(session_time),
{
    SessionInfo::new(generate_session_id(), session_time)
}

/// Decides what follows from the store's answer to the insertion of
/// `candidate`.
pub fn fresh_session_result(candidate: SessionInfo, written: Result<u64, StoreFailure>) -> (outcome:
    FreshSession)
    ensures
        outcome@ == fresh_session_outcome(candidate@, written_view(written)),
{
    match written {
        Ok(_) => FreshSession::Issued(candidate.session_id),
        Err(failure) => {
            if failure.violates(SESSION_ID_CONSTRAINT) {
                FreshSession::Collision
            } else {
                FreshSession::Failed(failure.message)
            }
        },
    }
}

/// What a result of [`check_session`] holds.
pub open spec fn checked_view(result: Result<SessionInfo, SessionError>) -> Result<
    SessionInfoView,
    SessionErrorView,
> {
    match result {
        Ok(info) => Ok(info@),
        Err(error) => Err(error@),
    }
}

/// The record that a read found, or why there is none: an absent record is
/// [`SessionError::SessionIdNotFound`], a failed read a
/// [`SessionError::DatabaseError`] with the failure's message.
pub open spec fn check_session_outcome(
    read: Result<Option<SessionInfoView>, StoreFailureView>,
) -> Result<SessionInfoView, SessionErrorView> {
    match read {
        Ok(Some(info)) => Ok(info),
        Ok(None) => Err(SessionErrorView::SessionIdNotFound),
        Err(failure) => Err(SessionErrorView::DatabaseError(failure.message)),
    }
}

/// Decides what follows from the store's answer to
/// [`SessionInfo::try_read`]: the record, or the error that says why there is
/// none.
pub fn check_session(read: Result<Option<SessionInfo>, StoreFailure>) -> (result: Result<
    SessionInfo,
    SessionError,
>)
    ensures
        checked_view(result) == check_session_outcome(read_view(read)),
{
    match read {
        Ok(found) => match found {
            Some(info) => Ok(info),
            None => Err(SessionError::SessionIdNotFound),
        },
        Err(failure) => Err(SessionError::DatabaseError(failure.message)),
    }
}

/// The request that attaches `username` to the session `session_id` at `now`
/// and renews the session: its expiration date becomes one lifetime after
/// `now`.
pub open spec fn update_request(
    session_id: Seq<char>,
    username: Seq<char>,
    now: Timestamp,
    session_time: SessionTime,
) -> StoreRequestView {
    StoreRequestView::UpdateSession {
        session_id,
        username,
        expiration_date: now.later(session_time),
    }
}

/// The request that attaches `username` to the session `session_id` at `now`
/// and renews the session for one lifetime from `now`.
pub fn update_session_at(
    session_id: SessionId,
    username: &str,
    now: Timestamp,
    session_time: SessionTime,
) -> (request: StoreRequest)
    requires
        now.can_be_extended(session_time),
    ensures
        request@ == update_request(session_id@, username@, now, session_time),
{
    StoreRequest::UpdateSession {
        session_id,
        username: username.to_owned(),
        expiration_date: now.extend(session_time),
    }
}

/// The request that attaches `username` to the session `session_id` and
/// renews the session for one lifetime from the clock's reading. The answer
/// goes to [`update_session_result`].
pub fn update_session(session_id: SessionId, username: &str, session_time: SessionTime) -> (request:
    StoreRequest)
    ensures
        exists|now: Timestamp|
            now.is_clock_reading() && now.can_be_extended(session_time) && request@
                == #[trigger] update_request(
                session_id@,
                username@,
                now,
                session_time,
            ),
{
    let now = current_time();
    update_session_at(session_id, username, now, session_time)
}

/// What a result without a value holds.
pub open spec fn done_view(result: Result<(), SessionError>) -> Result<(), SessionErrorView> {
    match result {
        Ok(()) => Ok(()),
        Err(error) => Err(error@),
    }
}

/// Whether an update reached its session: it did if exactly one row changed.
/// Any other count is [`SessionError::SessionIdNotFound`], a failed update a
/// [`SessionError::DatabaseError`] with the failure's message.
pub open spec fn update_session_outcome(written: Result<u64, StoreFailureView>) -> Result<
    (),
    SessionErrorView,
> {
    match written {
        Ok(rows) => if rows == 1 {
            Ok(())
        } else {
            Err(SessionErrorView::SessionIdNotFound)
        },
        Err(failure) => Err(SessionErrorView::DatabaseError(failure.message)),
    }
}

/// Decides what follows from the store's answer to the request of
/// [`update_session`].
pub fn update_session_result(written: Result<u64, StoreFailure>) -> (result: Result<
    (),
    SessionError,
>)
    ensures
        done_view(result) == update_session_outcome(written_view(written)),
{
    match written {
        Err(failure) => Err(SessionError::DatabaseError(failure.message)),
        Ok(rows) => {
            if rows == 1 {
                Ok(())
            } else {
                Err(SessionError::SessionIdNotFound)
            }
        },
    }
}

/// The request that deletes the session `session_id`. The answer goes to
/// [`remove_session_result`].
pub fn remove_session(session_id: &str) -> (request: StoreRequest)
    ensures
        request@ == (StoreRequestView::RemoveSession { session_id: session_id@ }),
{
    StoreRequest::RemoveSession { session_id: session_id.to_owned() }
}

/// Whether a removal was carried out: it was unless the store failed, however
/// many rows it deleted.
pub open spec fn remove_session_outcome(written: Result<u64, StoreFailureView>) -> Result<
    (),
    SessionErrorView,
> {
    match written {
        Ok(_) => Ok(()),
        Err(failure) => Err(SessionErrorView::DatabaseError(failure.message)),
    }
}

/// Decides what follows from the store's answer to the request of
/// [`remove_session`].
pub fn remove_session_result(written: Result<u64, StoreFailure>) -> (result: Result<
    (),
    SessionError,
>)
    ensures
        done_view(result) == remove_session_outcome(written_view(written)),
{
    match written {
        Ok(_) => Ok(()),
        Err(failure) => Err(SessionError::DatabaseError(failure.message)),
    }
}


/// What a read of a session record says about the validity of its id.
#[derive(Debug, PartialEq, Eq)]
pub enum Verification {
    /// The store holds the record and it has not expired.
    Valid,
    /// The store holds no record under the id.
    Invalid,
    /// The store holds the record and it has expired: the id is invalid, and
    /// the caller carries out `removal`, whose answer decides nothing.
    Expired { removal: StoreRequest },
}

/// What a [`Verification`] holds.
pub enum VerificationView {
    Valid,
    Invalid,
    Expired { removal: StoreRequestView },
}

impl View for Verification {
    type V = VerificationView;

    open spec fn view(&self) -> VerificationView {
        match *self {
            Verification::Valid => VerificationView::Valid,
            Verification::Invalid => VerificationView::Invalid,
            Verification::Expired { removal } => VerificationView::Expired { removal: removal@ },
        }
    }
}

impl Verification {
    /// Whether the id was found valid.
    pub fn is_valid(&self) -> (valid: bool)
        ensures
            valid == (self@ is Valid),
    {
        match self {
            Verification::Valid => true,
            _ => false,
        }
    }
}

/// What a result of [`verify_session_id`] holds.
pub open spec fn verified_view(result: Result<Verification, SessionError>) -> Result<
    VerificationView,
    SessionErrorView,
> {
    match result {
        Ok(verification) => Ok(verification@),
        Err(error) => Err(error@),
    }
}

/// The validity at `now` of the id `session_id`, given what a read under the
/// id found. A record is valid strictly before its expiration date; from that
/// date on it is expired and is to be removed. No record means an invalid id,
/// and a failed read is a [`SessionError::DatabaseError`] with the failure's
/// message.
pub open spec fn verify_session_outcome(
    session_id: Seq<char>,
    read: Result<Option<SessionInfoView>, StoreFailureView>,
    now: Timestamp,
) -> Result<VerificationView, SessionErrorView> {
    match read {
        Ok(Some(info)) => if info.expiration_date.at_or_before(now) {
            Ok(VerificationView::Expired { removal: StoreRequestView::RemoveSession { session_id } })
        } else {
            Ok(VerificationView::Valid)
        },
        Ok(None) => Ok(VerificationView::Invalid),
        Err(failure) => Err(SessionErrorView::DatabaseError(failure.message)),
    }
}

/// Decides at `now` whether the id `session_id` is valid, from the store's
/// answer to [`SessionInfo::try_read`] for that id.
pub fn verify_session_at(
    session_id: &str,
    read: Result<Option<SessionInfo>, StoreFailure>,
    now: Timestamp,
) -> (result: Result<Verification, SessionError>)
    ensures
        verified_view(result) == verify_session_outcome(session_id@, read_view(read), now),
{
    match read {
        Ok(found) => {
            if let Some(info) = found {
                if info.is_expired_at(&now) {
                    Ok(Verification::Expired { removal: remove_session(session_id) })
                } else {
                    Ok(Verification::Valid)
                }
            } else {
                Ok(Verification::Invalid)
            }
        },
        Err(failure) => Err(SessionError::DatabaseError(failure.message)),
    }
}

/// Decides whether the id `session_id` is valid at the clock's reading, from
/// the store's answer to [`SessionInfo::try_read`] for that id.
pub fn verify_session_id(session_id: &str, read: Result<Option<SessionInfo>, StoreFailure>) -> (result:
    Result<Verification, SessionError>)
    ensures
        exists|now: Timestamp| #[trigger]
            verify_session_outcome(session_id@, read_view(read), now) == verified_view(result)
                && now.is_clock_reading(),
        read is Ok && read->Ok_0 is None ==> verified_view(result) == Ok::<
            VerificationView,
            SessionErrorView,
        >(VerificationView::Invalid),
        read matches Err(failure) ==> verified_view(result) == Err::<
            VerificationView,
            SessionErrorView,
        >(SessionErrorView::DatabaseError(failure.message@)),
{
    let now = current_time();
    verify_session_at(session_id, read, now)
}


/// Message of the rejection of a request without cookies.
pub const NO_COOKIES: &'static str = "No cookies were found";

/// Message of the rejection of a request that finds no store.
pub const NO_DATABASE: &'static str = "Cannot establish connection with database.";

/// Message of the rejection of a request without the session cookie.
pub const NO_SESSION_COOKIE: &'static str = "No session cookie was found";

/// Message of the rejection of a request whose session the store does not hold.
pub const SESSION_NOT_STORED: &'static str = "Cannot find user session in database. Try again.";

/// Message of the rejection of a request whose session could not be read.
pub const SESSION_READ_FAILED: &'static str = "Database error has occured";

/// What a result that is a store request or a rejection holds.
pub open spec fn asked_view(result: Result<StoreRequest, Rejection>) -> Result<
    StoreRequestView,
    RejectionView,
> {
    match result {
        Ok(request) => Ok(request@),
        Err(rejection) => Err(rejection@),
    }
}

/// What a result that is a session record or a rejection holds.
pub open spec fn extracted_view(result: Result<SessionInfo, Rejection>) -> Result<
    SessionInfoView,
    RejectionView,
> {
    match result {
        Ok(info) => Ok(info@),
        Err(rejection) => Err(rejection@),
    }
}

/// How the session of a request is looked for. A request without cookies is
/// refused with status 500, one that finds no store with status 500, and one
/// without the session cookie with status 400, in this order; otherwise the
/// record under the cookie's value is read.
pub open spec fn from_request_outcome(cookies: CookieHeaderView, store_available: bool) -> Result<
    StoreRequestView,
    RejectionView,
> {
    match cookies {
        CookieHeaderView::Absent => Err(server_error(NO_COOKIES@)),
        CookieHeaderView::Present { session_cookie } => if !store_available {
            Err(server_error(NO_DATABASE@))
        } else {
            match session_cookie {
                None => Err(bad_request(NO_SESSION_COOKIE@)),
                Some(session_id) => Ok(StoreRequestView::ReadSession { session_id }),
            }
        },
    }
}

/// The session of a request, given what the read of its record found. A
/// missing record and a failed read are both refused with status 500.
pub open spec fn from_read_outcome(read: Result<Option<SessionInfoView>, StoreFailureView>) -> Result<
    SessionInfoView,
    RejectionView,
> {
    match read {
        Ok(Some(info)) => Ok(info),
        Ok(None) => Err(server_error(SESSION_NOT_STORED@)),
        Err(_) => Err(server_error(SESSION_READ_FAILED@)),
    }
}

/// The outcome of asking for the permissions of a session.
#[derive(Debug, PartialEq, Eq)]
pub enum PermissionLookup {
    /// The session is anonymous: it has no permissions, and the store is not
    /// asked.
    Anonymous,
    /// The session belongs to a user: the caller carries out the request and
    /// hands the answer to [`SessionInfo::read_permissions_result`].
    Ask(StoreRequest),
}

/// What a [`PermissionLookup`] holds.
pub enum PermissionLookupView {
    Anonymous,
    Ask(StoreRequestView),
}

impl View for PermissionLookup {
    type V = PermissionLookupView;

    open spec fn view(&self) -> PermissionLookupView {
        match *self {
            PermissionLookup::Anonymous => PermissionLookupView::Anonymous,
            PermissionLookup::Ask(request) => PermissionLookupView::Ask(request@),
        }
    }
}

/// Why the permissions of a user could not be resolved.
#[derive(Debug, PartialEq, Eq)]
pub enum ResolveError {
    /// The session names a user of whom the store holds no credentials: the
    /// two tables contradict each other.
    MissingCredential,
    /// The credential row of the user holds no permission, which no row may.
    MissingPermission,
    /// The stored permission is not the text of any level. The text is kept
    /// for the log and is not part of [`ResolveError::to_string`].
    UnknownPermission(String),
    /// The store failed, or the permission column could not be read.
    Store(String),
}

/// What a [`ResolveError`] holds.
pub enum ResolveErrorView {
    MissingCredential,
    MissingPermission,
    UnknownPermission(Seq<char>),
    Store(Seq<char>),
}

impl View for ResolveError {
    type V = ResolveErrorView;

    open spec fn view(&self) -> ResolveErrorView {
        match *self {
            ResolveError::MissingCredential => ResolveErrorView::MissingCredential,
            ResolveError::MissingPermission => ResolveErrorView::MissingPermission,
            ResolveError::UnknownPermission(text) => ResolveErrorView::UnknownPermission(text@),
            ResolveError::Store(message) => ResolveErrorView::Store(message@),
        }
    }
}

/// Message of [`ResolveError::MissingCredential`].
pub const CONFLICTING_TABLES: &'static str = "Tables in database has conflicting data.";

/// Message of [`ResolveError::MissingPermission`].
pub const PERMISSION_NOT_STORED: &'static str = "Credentials in database hold no permission.";

impl ResolveErrorView {
    /// Whether the error reports stored data that contradicts itself, as
    /// opposed to a store that failed.
    pub open spec fn is_integrity_violation(self) -> bool {
        self is MissingCredential || self is MissingPermission || self is UnknownPermission
    }

    /// The error in words.
    pub open spec fn text(self) -> Seq<char> {
        match self {
            ResolveErrorView::MissingCredential => CONFLICTING_TABLES@,
            ResolveErrorView::MissingPermission => PERMISSION_NOT_STORED@,
            ResolveErrorView::UnknownPermission(_) => crate::auth::NOT_A_PERMISSION@,
            ResolveErrorView::Store(message) => message,
        }
    }
}

impl ResolveError {
    /// Whether the error reports stored data that contradicts itself, as
    /// opposed to a store that failed.
    pub fn is_integrity_violation(&self) -> (r: bool)
        ensures
            r == self@.is_integrity_violation(),
    {
        match self {
            ResolveError::MissingCredential => true,
            ResolveError::MissingPermission => true,
            ResolveError::UnknownPermission(_) => true,
            ResolveError::Store(_) => false,
        }
    }

    /// The error in words.
    pub fn to_string(&self) -> (text: String)
        ensures
            text@ == self@.text(),
    {
        match self {
            ResolveError::MissingCredential => CONFLICTING_TABLES.to_owned(),
            ResolveError::MissingPermission => PERMISSION_NOT_STORED.to_owned(),
            ResolveError::UnknownPermission(_) => crate::auth::NOT_A_PERMISSION.to_owned(),
            ResolveError::Store(message) => message.clone(),
        }
    }
}

/// What a result of resolving permissions holds.
pub open spec fn resolved_view(result: Result<Permissions, ResolveError>) -> Result<
    Permissions,
    ResolveErrorView,
> {
    match result {
        Ok(permissions) => Ok(permissions),
        Err(error) => Err(error@),
    }
}

/// The permissions of a user, given what the read of the user's credential
/// row found. No row is [`ResolveError::MissingCredential`]; a row without a
/// permission is [`ResolveError::MissingPermission`]; a permission that is the
/// text of a level gives that level, and any other text is
/// [`ResolveError::UnknownPermission`]; a failed read, of the row or of the
/// column, is [`ResolveError::Store`] with the failure's message. A user is
/// never found to have no permissions: that is the lot of the anonymous
/// session alone.
pub open spec fn read_permissions_outcome(
    row: Result<Option<PermissionColumnView>, StoreFailureView>,
) -> Result<Permissions, ResolveErrorView> {
    match row {
        Err(failure) => Err(ResolveErrorView::Store(failure.message)),
        Ok(None) => Err(ResolveErrorView::MissingCredential),
        Ok(Some(PermissionColumnView::Null)) => Err(ResolveErrorView::MissingPermission),
        Ok(Some(PermissionColumnView::Text(text))) => match Permissions::parse_spec(text) {
            Some(permissions) => Ok(permissions),
            None => Err(ResolveErrorView::UnknownPermission(text)),
        },
        Ok(Some(PermissionColumnView::Unreadable(failure))) => Err(
            ResolveErrorView::Store(failure.message),
        ),
    }
}

impl SessionInfo {
    /// Decides how the session of a request is looked for: by the request to
    /// carry out, whose answer goes to [`SessionInfo::from_read`], or by the
    /// rejection that ends the request.
    pub fn from_request(cookies: &CookieHeader, store_available: bool) -> (result: Result<
        StoreRequest,
        Rejection,
    >)
        ensures
            asked_view(result) == from_request_outcome(cookies@, store_available),
    {
        match cookies {
            CookieHeader::Absent => Err(Rejection::server_error(NO_COOKIES)),
            CookieHeader::Present { session_cookie } => {
                if !store_available {
                    Err(Rejection::server_error(NO_DATABASE))
                } else {
                    match session_cookie {
                        None => Err(Rejection::new(BAD_REQUEST, NO_SESSION_COOKIE)),
                        Some(session_id) => Ok(SessionInfo::try_read(session_id.as_str())),
                    }
                }
            },
        }
    }

    /// Decides what follows from the store's answer to the request of
    /// [`SessionInfo::from_request`]: the session of the request, or the
    /// rejection that ends it.
    pub fn from_read(read: Result<Option<SessionInfo>, StoreFailure>) -> (result: Result<
        SessionInfo,
        Rejection,
    >)
        ensures
            extracted_view(result) == from_read_outcome(read_view(read)),
    {
        match read {
            Ok(Some(info)) => Ok(info),
            Ok(None) => Err(Rejection::server_error(SESSION_NOT_STORED)),
            Err(_) => Err(Rejection::server_error(SESSION_READ_FAILED)),
        }
    }

    /// Starts the resolution of the session's permissions. An anonymous
    /// session has none, and the store is not asked; for a session of a user
    /// the credential row of that user is to be read.
    pub fn read_permissions(&self) -> (lookup: PermissionLookup)
        ensures
            lookup@ == match self@.username {
                None => PermissionLookupView::Anonymous,
                Some(username) => PermissionLookupView::Ask(
                    StoreRequestView::ReadPermissions { username },
                ),
            },
    {
        match &self.username {
            None => PermissionLookup::Anonymous,
            Some(username) => PermissionLookup::Ask(
                StoreRequest::ReadPermissions { username: username.clone() },
            ),
        }
    }

    /// Decides what follows from the store's answer to the request of
    /// [`SessionInfo::read_permissions`]: the level of the user, or why it
    /// could not be resolved.
    pub fn read_permissions_result(row: Result<Option<PermissionColumn>, StoreFailure>) -> (result:
        Result<Permissions, ResolveError>)
        ensures
            resolved_view(result) == read_permissions_outcome(permissions_view(row)),
    {
        match row {
            Err(failure) => Err(ResolveError::Store(failure.message)),
            Ok(None) => Err(ResolveError::MissingCredential),
            Ok(Some(column)) => match column {
                PermissionColumn::Null => Err(ResolveError::MissingPermission),
                PermissionColumn::Text(text) => match Permissions::parse(text.as_str()) {
                    Ok(permissions) => Ok(permissions),
                    Err(_) => Err(ResolveError::UnknownPermission(text)),
                },
                PermissionColumn::Unreadable(failure) => Err(ResolveError::Store(failure.message)),
            },
        }
    }
}

/// A credential row whose permission is missing, or is not the text of a
/// level, is never resolved to a level nor to no permissions: it is an
/// integrity violation.
pub proof fn unusable_permission_is_integrity_violation(column: PermissionColumnView)
    requires
        column is Null || (column matches PermissionColumnView::Text(text)
            && Permissions::parse_spec(text) is None),
    ensures
        read_permissions_outcome(Ok(Some(column))) matches Err(error)
            && error.is_integrity_violation(),
{
}

/// A user is resolved to a level exactly where the credential row holds the
/// text of that level.
pub proof fn level_is_resolved_from_its_text(
    row: Result<Option<PermissionColumnView>, StoreFailureView>,
    level: Permissions,
)
    ensures
        read_permissions_outcome(row) == Ok::<Permissions, ResolveErrorView>(level) <==> row == Ok::<
            Option<PermissionColumnView>,
            StoreFailureView,
        >(Some(PermissionColumnView::Text(level.text()))),
{
    crate::auth::texts_are_distinct();
    crate::auth::parse_inverts_text(level);
    if let Ok(Some(PermissionColumnView::Text(text))) = row {
        crate::auth::parse_accepts_only_texts(text);
    }
}

} // verus!
