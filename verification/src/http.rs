//! The few facts of a request and of a response that the library decides on.

use vstd::prelude::*;

verus! {

/// Status of a response that reports a created resource.
pub const CREATED: u16 = 201;

/// Status of a response that refuses a malformed request.
pub const BAD_REQUEST: u16 = 400;

/// Status of a response that refuses a request for want of permission.
pub const FORBIDDEN: u16 = 403;

/// Status of a response that reports a conflict with what is stored.
pub const CONFLICT: u16 = 409;

/// Status of a response that reports a failure of the server.
pub const INTERNAL_SERVER_ERROR: u16 = 500;

/// What a request says about cookies.
#[derive(Debug, PartialEq, Eq)]
pub enum CookieHeader {
    /// The request carries no readable cookie header.
    Absent,
    /// The request carries cookies; `session_cookie` is the value of the
    /// session cookie among them, if it is there.
    Present { session_cookie: Option<String> },
}

/// What a [`CookieHeader`] holds.
pub enum CookieHeaderView {
    Absent,
    Present { session_cookie: Option<Seq<char>> },
}

impl View for CookieHeader {
    type V = CookieHeaderView;

    open spec fn view(&self) -> CookieHeaderView {
        match *self {
            CookieHeader::Absent => CookieHeaderView::Absent,
            CookieHeader::Present { session_cookie } => CookieHeaderView::Present {
                session_cookie: crate::store::text_of(session_cookie),
            },
        }
    }
}

impl CookieHeaderView {
    /// The value of the session cookie, if the request carries one.
    pub open spec fn session_cookie(self) -> Option<Seq<char>> {
        match self {
            CookieHeaderView::Absent => None,
            CookieHeaderView::Present { session_cookie } => session_cookie,
        }
    }
}

/// A response that ends a request early: a status and a plain message.
#[derive(Debug, PartialEq, Eq)]
pub struct Rejection {
    pub status: u16,
    pub message: String,
}

/// What a [`Rejection`] holds.
pub struct RejectionView {
    pub status: u16,
    pub message: Seq<char>,
}

impl View for Rejection {
    type V = RejectionView;

    open spec fn view(&self) -> RejectionView {
        RejectionView { status: self.status, message: self.message@ }
    }
}

impl Rejection {
    /// The rejection with the given status and message.
    pub fn new(status: u16, message: &str) -> (r: Rejection)
        ensures
            r@ == (RejectionView { status, message: message@ }),
    {
        Rejection { status, message: message.to_owned() }
    }

    /// A rejection with status 500 and the given message.
    pub fn server_error(message: &str) -> (r: Rejection)
        ensures
            r@ == server_error(message@),
    {
        Rejection::new(INTERNAL_SERVER_ERROR, message)
    }
}

/// What a list of named fields of a response body holds.
pub open spec fn fields_view(fields: Seq<(String, String)>) -> Seq<(Seq<char>, Seq<char>)> {
    fields.map_values(|field: (String, String)| (field.0@, field.1@))
}

/// The rejection with status 500 and the given message.
pub open spec fn server_error(message: Seq<char>) -> RejectionView {
    RejectionView { status: INTERNAL_SERVER_ERROR, message }
}

/// The rejection with status 400 and the given message.
pub open spec fn bad_request(message: Seq<char>) -> RejectionView {
    RejectionView { status: BAD_REQUEST, message }
}

} // verus!
