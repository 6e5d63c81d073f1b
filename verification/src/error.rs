//! The closed set of failure kinds and their mapping to a client-safe
//! `(status, label)` pair. Labels carry only the symbolic kind name; no
//! internal detail ever reaches the client.

use vstd::prelude::*;

verus! {

/// Every failure the service can carry on a response.
#[derive(Clone, Copy, Debug, PartialEq, Eq, Structural)]
pub enum Error {
    /// The login credentials were rejected.
    LoginFail,
    /// No auth token cookie was present on the request.
    AuthFailNoAuthTokenCookie,
    /// An auth token cookie was present but malformed.
    AuthFailTokenWrongFormat,
    /// A protected route ran without any resolution result attached.
    AuthFailCtxNotInRequestExt,
    /// A delete named an id that is out of range or already removed.
    TicketDeleteFailIdNotFound { id: u64 },
}

impl Error {
    /// The HTTP status this failure maps to: auth and login failures are
    /// `401`, a missing ticket id is `404`.
    pub open spec fn status_spec(&self) -> u16 {
        match *self {
            Error::LoginFail => 401,
            Error::AuthFailNoAuthTokenCookie => 401,
            Error::AuthFailTokenWrongFormat => 401,
            Error::AuthFailCtxNotInRequestExt => 401,
            Error::TicketDeleteFailIdNotFound { .. } => 404,
        }
    }

    /// The public label: exactly the symbolic kind name, never a message,
    /// path or internal identifier.
    pub open spec fn label_spec(&self) -> Seq<char> {
        match *self {
            Error::LoginFail => "LoginFail"@,
            Error::AuthFailNoAuthTokenCookie => "AuthFailNoAuthTokenCookie"@,
            Error::AuthFailTokenWrongFormat => "AuthFailTokenWrongFormat"@,
            Error::AuthFailCtxNotInRequestExt => "AuthFailCtxNotInRequestExt"@,
            Error::TicketDeleteFailIdNotFound { .. } => "TicketDeleteFailIdNotFound"@,
        }
    }

    /// Compute the client-facing view of this failure.
    pub fn client_status_and_error(&self) -> (r: (u16, &'static str))
        ensures
            r.0 == self.status_spec(),
            r.1@ == self.label_spec(),
    {
        match *self {
            Error::LoginFail => (401, "LoginFail"),
            Error::AuthFailNoAuthTokenCookie => (401, "AuthFailNoAuthTokenCookie"),
            Error::AuthFailTokenWrongFormat => (401, "AuthFailTokenWrongFormat"),
            Error::AuthFailCtxNotInRequestExt => (401, "AuthFailCtxNotInRequestExt"),
            Error::TicketDeleteFailIdNotFound { .. } => (404, "TicketDeleteFailIdNotFound"),
        }
    }
}

} // verus!
