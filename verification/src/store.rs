//! The conversation with the persistent store.
//!
//! The library never reaches the store itself. Where an operation needs it, the
//! library hands out a [`StoreRequest`]; the caller carries the request out and
//! hands back the matching [`StoreReply`].

use vstd::prelude::*;
use crate::auth::Permissions;
use crate::session::{SessionInfo, SessionInfoView};

verus! {

/// What a database reported about a statement that it refused.
#[derive(Clone, Debug, PartialEq, Eq)]
pub struct DatabaseFault {
    /// The error code of the database, where it gave one.
    pub code: Option<String>,
    /// The name of the constraint that was violated, where one was.
    pub constraint: Option<String>,
}

/// A request that the store did not carry out.
#[derive(Clone, Debug, PartialEq, Eq)]
pub struct StoreFailure {
    /// The failure in words.
    pub message: String,
    /// Present where the database itself refused the statement; absent where
    /// the statement did not reach it or its answer could not be read.
    pub database: Option<DatabaseFault>,
}

/// The permission column of a credential row.
#[derive(Clone, Debug, PartialEq, Eq)]
pub enum PermissionColumn {
    /// The column holds no value.
    Null,
    /// The column holds this text.
    Text(String),
    /// The column could not be read.
    Unreadable(StoreFailure),
}

/// Something for the caller to do on the store.
#[derive(Clone, Debug, PartialEq, Eq)]
pub enum StoreRequest {
    /// Insert this session record. The store refuses a record whose id it
    /// already holds, naming the constraint [`SESSION_ID_CONSTRAINT`].
    InsertSession(SessionInfo),
    /// Read the session record with this id.
    ReadSession { session_id: String },
    /// Set the username and the expiration date of the record with this id.
    UpdateSession { session_id: String, username: String, expiration_date: crate::time::Timestamp },
    /// Delete the session record with this id.
    RemoveSession { session_id: String },
    /// Read the permission column of the credential row of this user.
    ReadPermissions { username: String },
    /// Insert a credential row. The store refuses a username that it already
    /// holds, with the error code [`UNIQUE_VIOLATION`].
    InsertUser { username: String, salt: Vec<u8>, password_hash: Vec<u8>, permissions: Permissions },
}

/// What the store answered.
#[derive(Debug, PartialEq, Eq)]
pub enum StoreReply {
    /// The answer to [`StoreRequest::ReadSession`]: the record, if there is one.
    Session(Result<Option<SessionInfo>, StoreFailure>),
    /// The answer to a request that changes the store: the number of rows that
    /// it changed.
    Written(Result<u64, StoreFailure>),
    /// The answer to [`StoreRequest::ReadPermissions`]: the permission column
    /// of the row, if there is a row.
    Permissions(Result<Option<PermissionColumn>, StoreFailure>),
}

/// The constraint that keeps session ids unique.
pub const SESSION_ID_CONSTRAINT: &'static str = "session_id";

/// The error code with which the database refuses a duplicate key.
pub const UNIQUE_VIOLATION: &'static str = "23505";

/// The characters of an optional string.
pub open spec fn text_of(s: Option<String>) -> Option<Seq<char>> {
    match s {
        Some(s) => Some(s@),
        None => None,
    }
}

pub struct DatabaseFaultView {
    pub code: Option<Seq<char>>,
    pub constraint: Option<Seq<char>>,
}

pub struct StoreFailureView {
    pub message: Seq<char>,
    pub database: Option<DatabaseFaultView>,
}

pub enum PermissionColumnView {
    Null,
    Text(Seq<char>),
    Unreadable(StoreFailureView),
}

pub enum StoreRequestView {
    InsertSession(SessionInfoView),
    ReadSession { session_id: Seq<char> },
    UpdateSession { session_id: Seq<char>, username: Seq<char>, expiration_date: crate::time::Timestamp },
    RemoveSession { session_id: Seq<char> },
    ReadPermissions { username: Seq<char> },
    InsertUser { username: Seq<char>, salt: Seq<u8>, password_hash: Seq<u8>, permissions: Permissions },
}

pub enum StoreReplyView {
    Session(Result<Option<SessionInfoView>, StoreFailureView>),
    Written(Result<u64, StoreFailureView>),
    Permissions(Result<Option<PermissionColumnView>, StoreFailureView>),
}

impl View for DatabaseFault {
    type V = DatabaseFaultView;

    open spec fn view(&self) -> DatabaseFaultView {
        DatabaseFaultView { code: text_of(self.code), constraint: text_of(self.constraint) }
    }
}

impl View for StoreFailure {
    type V = StoreFailureView;

    open spec fn view(&self) -> StoreFailureView {
        StoreFailureView {
            message: self.message@,
            database: match self.database {
                Some(fault) => Some(fault@),
                None => None,
            },
        }
    }
}

impl View for PermissionColumn {
    type V = PermissionColumnView;

    open spec fn view(&self) -> PermissionColumnView {
        match *self {
            PermissionColumn::Null => PermissionColumnView::Null,
            PermissionColumn::Text(text) => PermissionColumnView::Text(text@),
            PermissionColumn::Unreadable(failure) => PermissionColumnView::Unreadable(failure@),
        }
    }
}

impl View for StoreRequest {
    type V = StoreRequestView;

    open spec fn view(&self) -> StoreRequestView {
        match *self {
            StoreRequest::InsertSession(info) => StoreRequestView::InsertSession(info@),
            StoreRequest::ReadSession { session_id } => StoreRequestView::ReadSession {
                session_id: session_id@,
            },
            StoreRequest::UpdateSession {
                session_id,
                username,
                expiration_date,
            } => StoreRequestView::UpdateSession {
                session_id: session_id@,
                username: username@,
                expiration_date,
            },
            StoreRequest::RemoveSession { session_id } => StoreRequestView::RemoveSession {
                session_id: session_id@,
            },
            StoreRequest::ReadPermissions { username } => StoreRequestView::ReadPermissions {
                username: username@,
            },
            StoreRequest::InsertUser {
                username,
                salt,
                password_hash,
                permissions,
            } => StoreRequestView::InsertUser {
                username: username@,
                salt: salt@,
                password_hash: password_hash@,
                permissions,
            },
        }
    }
}

/// What an answer to [`StoreRequest::ReadSession`] holds.
pub open spec fn read_view(read: Result<Option<SessionInfo>, StoreFailure>) -> Result<
    Option<SessionInfoView>,
    StoreFailureView,
> {
    match read {
        Ok(Some(info)) => Ok(Some(info@)),
        Ok(None) => Ok(None),
        Err(failure) => Err(failure@),
    }
}

/// What an answer to a request that changes the store holds.
pub open spec fn written_view(written: Result<u64, StoreFailure>) -> Result<
    u64,
    StoreFailureView,
> {
    match written {
        Ok(rows) => Ok(rows),
        Err(failure) => Err(failure@),
    }
}

/// What an answer to [`StoreRequest::ReadPermissions`] holds.
pub open spec fn permissions_view(
    row: Result<Option<PermissionColumn>, StoreFailure>,
) -> Result<Option<PermissionColumnView>, StoreFailureView> {
    match row {
        Ok(Some(column)) => Ok(Some(column@)),
        Ok(None) => Ok(None),
        Err(failure) => Err(failure@),
    }
}

impl View for StoreReply {
    type V = StoreReplyView;

    open spec fn view(&self) -> StoreReplyView {
        match *self {
            StoreReply::Session(read) => StoreReplyView::Session(read_view(read)),
            StoreReply::Written(written) => StoreReplyView::Written(written_view(written)),
            StoreReply::Permissions(row) => StoreReplyView::Permissions(permissions_view(row)),
        }
    }
}

impl StoreFailureView {
    /// Whether the failure is the database refusing a statement for the named
    /// constraint.
    pub open spec fn violates(self, constraint: Seq<char>) -> bool {
        self.database matches Some(fault) && fault.constraint == Some(constraint)
    }

    /// Whether the failure is the database refusing a statement with the given
    /// error code.
    pub open spec fn has_code(self, code: Seq<char>) -> bool {
        self.database matches Some(fault) && fault.code == Some(code)
    }
}

impl StoreFailure {
    /// Whether the failure is the database refusing a statement for the named
    /// constraint.
    pub fn violates(&self, constraint: &str) -> (r: bool)
        ensures
            r == self@.violates(constraint@),
    {
        match &self.database {
            Some(fault) => match &fault.constraint {
                Some(name) => crate::text::str_eq(name.as_str(), constraint),
                None => false,
            },
            None => false,
        }
    }

    /// Whether the failure is the database refusing a statement with the given
    /// error code.
    pub fn has_code(&self, code: &str) -> (r: bool)
        ensures
            r == self@.has_code(code@),
    {
        match &self.database {
            Some(fault) => match &fault.code {
                Some(found) => crate::text::str_eq(found.as_str(), code),
                None => false,
            },
            None => false,
        }
    }
}

} // verus!
