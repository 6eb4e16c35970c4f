//! Signing up: a new account gets its credentials stored.

use vstd::prelude::*;
use vstd::utf8::encode_utf8;
use crate::auth::credentials::{Hasher, MAX_INPUT_LENGTH, MIN_SALT_LENGTH, SALT_LENGTH};
use crate::auth::Permissions;
use crate::http::{fields_view, CONFLICT, CREATED, INTERNAL_SERVER_ERROR};
use crate::store::{
    text_of, written_view, StoreFailure, StoreFailureView, StoreRequest, StoreRequestView, UNIQUE_VIOLATION,
};

verus! {

/// What a user sends to sign up.
#[derive(Debug, PartialEq, Eq)]
pub struct LoginForm {
    username: String,
    password: String,
}

/// Why credentials could not be stored.
#[derive(Debug, PartialEq, Eq)]
pub enum AuthError {
    DatabaseError(String),
    InvalidUsername,
    UsernameTaken,
}

/// What an [`AuthError`] holds.
pub enum AuthErrorView {
    DatabaseError(Seq<char>),
    InvalidUsername,
    UsernameTaken,
}

impl View for AuthError {
    type V = AuthErrorView;

    open spec fn view(&self) -> AuthErrorView {
        match *self {
            AuthError::DatabaseError(message) => AuthErrorView::DatabaseError(message@),
            AuthError::InvalidUsername => AuthErrorView::InvalidUsername,
            AuthError::UsernameTaken => AuthErrorView::UsernameTaken,
        }
    }
}

/// The answer to a request to sign up: a status and, where the account was
/// not created, a word that names the error. The word is the only field of
/// the body; a successful answer has no body.
#[derive(Debug, PartialEq, Eq)]
pub struct SignupResponse {
    pub status: u16,
    pub error: Option<String>,
}

/// What a [`SignupResponse`] holds.
pub struct SignupResponseView {
    pub status: u16,
    pub error: Option<Seq<char>>,
}

impl View for SignupResponse {
    type V = SignupResponseView;

    open spec fn view(&self) -> SignupResponseView {
        SignupResponseView { status: self.status, error: text_of(self.error) }
    }
}

impl SignupResponseView {
    /// The fields of the body, by name: the error, or nothing.
    pub open spec fn body(self) -> Seq<(Seq<char>, Seq<char>)> {
        match self.error {
            Some(error) => seq![("error"@, error)],
            None => Seq::empty(),
        }
    }
}

impl SignupResponse {
    /// The fields of the body. An answer without fields has no body.
    pub fn body(&self) -> (fields: Vec<(String, String)>)
        ensures
            fields_view(fields@) == self@.body(),
    {
        let mut fields: Vec<(String, String)> = Vec::new();
        match &self.error {
            Some(error) => {
                fields.push(("error".to_owned(), error.clone()));
            },
            None => {},
        }
        assert(fields_view(fields@) =~= self@.body());
        fields
    }
}

impl LoginForm {
    /// The form with the given contents.
    pub fn new(username: String, password: String) -> (form: LoginForm)
        ensures
            form.username_text() == username@,
            form.password_bytes() == encode_utf8(password@),
    {
        LoginForm { username, password }
    }

    /// The name that the user chose.
    pub closed spec fn username_text(self) -> Seq<char> {
        self.username@
    }

    /// The bytes of the password that the user chose: its encoding in
    /// UTF-8.
    pub closed spec fn password_bytes(self) -> Seq<u8> {
        encode_utf8(self.password@)
    }

    /// The name that the user chose.
    pub fn username(&self) -> (name: &str)
        ensures
            name@ == self.username_text(),
    {
        self.username.as_str()
    }

    /// The bytes of the password that the user chose.
    pub fn password(&self) -> (bytes: &[u8])
        ensures
            bytes@ == self.password_bytes(),
    {
        self.password.as_str().as_bytes()
    }
}

/// The request that stores the credentials of a new account.
pub open spec fn credential_row(
    username: Seq<char>,
    password_hash: Seq<u8>,
    salt: Seq<u8>,
    permissions: Permissions,
) -> StoreRequestView {
    StoreRequestView::InsertUser { username, salt, password_hash, permissions }
}

/// The request that stores the credentials of a new account. The answer goes
/// to [`insert_user_result`].
pub fn insert_user(username: &str, password_hash: &[u8], salt: &[u8], permissions: Permissions) -> (request:
    StoreRequest)
    ensures
        request@ == credential_row(username@, password_hash@, salt@, permissions),
{
    StoreRequest::InsertUser {
        username: username.to_owned(),
        salt: bytes_of(salt),
        password_hash: bytes_of(password_hash),
        permissions,
    }
}

/// A vector with the bytes of a slice.
fn bytes_of(slice: &[u8]) -> (bytes: Vec<u8>)
    ensures
        bytes@ == slice@,
{
    let mut bytes: Vec<u8> = Vec::new();
    let mut i: usize = 0;
    while i < slice.len()
        invariant
            i <= slice@.len(),
            bytes@ == slice@.subrange(0, i as int),
        decreases slice@.len() - i,
    {
        bytes.push(slice[i]);
        assert(bytes@ =~= slice@.subrange(0, i + 1));
        i = i + 1;
    }
    assert(slice@.subrange(0, slice@.len() as int) =~= slice@);
    bytes
}

/// What a result of [`insert_user_result`] holds.
pub open spec fn stored_view(result: Result<(), AuthError>) -> Result<(), AuthErrorView> {
    match result {
        Ok(()) => Ok(()),
        Err(error) => Err(error@),
    }
}

/// Whether the credentials were stored. They were unless the store failed. A
/// failure with which the database refuses a duplicate key means that the
/// username is taken; any other is a [`AuthError::DatabaseError`] with the
/// failure's message.
pub open spec fn insert_user_outcome(written: Result<u64, StoreFailureView>) -> Result<
    (),
    AuthErrorView,
> {
    match written {
        Ok(_) => Ok(()),
        Err(failure) => if failure.has_code(UNIQUE_VIOLATION@) {
            Err(AuthErrorView::UsernameTaken)
        } else {
            Err(AuthErrorView::DatabaseError(failure.message))
        },
    }
}

/// Decides what follows from the store's answer to the request of
/// [`insert_user`].
pub fn insert_user_result(written: Result<u64, StoreFailure>) -> (result: Result<(), AuthError>)
    ensures
        stored_view(result) == insert_user_outcome(written_view(written)),
{
    match written {
        Ok(_) => Ok(()),
        Err(failure) => {
            if failure.has_code(UNIQUE_VIOLATION) {
                Err(AuthError::UsernameTaken)
            } else {
                Err(AuthError::DatabaseError(failure.message))
            }
        },
    }
}

/// The answer to a request to sign up, given what became of storing the
/// credentials: status 201 and no body where they were stored, 409 and
/// `UsernameTaken` where the username is taken, 500 and `DatabaseError` where
/// the store failed.
pub open spec fn register_outcome(written: Result<u64, StoreFailureView>) -> SignupResponseView {
    match insert_user_outcome(written) {
        Ok(()) => SignupResponseView { status: CREATED, error: None },
        Err(AuthErrorView::UsernameTaken) => SignupResponseView {
            status: CONFLICT,
            error: Some("UsernameTaken"@),
        },
        Err(_) => SignupResponseView {
            status: INTERNAL_SERVER_ERROR,
            error: Some("DatabaseError"@),
        },
    }
}

/// Starts signing up the user of `form`, with `salt` as the salt of the new
/// credentials: the password is hashed, and the request stores the new
/// account with the level `User`.
pub fn register_with(form: &LoginForm, hasher: &Hasher<'_>, salt: &[u8]) -> (request: StoreRequest)
    requires
        form.password_bytes().len() <= MAX_INPUT_LENGTH,
        MIN_SALT_LENGTH <= salt@.len() <= MAX_INPUT_LENGTH,
    ensures
        request@ == credential_row(
            form.username_text(),
            hasher.digest(form.password_bytes(), salt@),
            salt@,
            Permissions::User,
        ),
{
    let password_hash = hasher.hash_password(form.password(), salt);
    insert_user(form.username(), password_hash.as_slice(), salt, Permissions::User)
}

/// Starts signing up the user of `form`: the password is hashed under a salt
/// that is drawn for the occasion, and the request stores the new account
/// with the level `User`. The answer goes to [`register_result`].
pub fn register(form: &LoginForm, hasher: &Hasher<'_>) -> (request: StoreRequest)
    requires
        form.password_bytes().len() <= MAX_INPUT_LENGTH,
    ensures
        exists|salt: Seq<u8>|
            salt.len() == SALT_LENGTH && request@ == #[trigger] credential_row(
                form.username_text(),
                hasher.digest(form.password_bytes(), salt),
                salt,
                Permissions::User,
            ),
{
    let (password_hash, user_salt) = hasher.process_password(form.password());
    insert_user(
        form.username(),
        password_hash.as_slice(),
        user_salt.as_slice(),
        Permissions::User,
    )
}

/// Decides the answer to a request to sign up from the store's answer to the
/// request of [`register`].
pub fn register_result(written: Result<u64, StoreFailure>) -> (response: SignupResponse)
    ensures
        response@ == register_outcome(written_view(written)),
{
    match insert_user_result(written) {
        Ok(()) => SignupResponse { status: CREATED, error: None },
        Err(AuthError::UsernameTaken) => SignupResponse {
            status: CONFLICT,
            error: Some("UsernameTaken".to_owned()),
        },
        Err(_) => SignupResponse {
            status: INTERNAL_SERVER_ERROR,
            error: Some("DatabaseError".to_owned()),
        },
    }
}

} // verus!
