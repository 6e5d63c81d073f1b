//! The two-stage auth pipeline: best-effort context resolution before
//! routing, and a fail-closed authorization gate on protected routes.

use vstd::prelude::*;

use crate::ctx::Ctx;
use crate::error::Error;
use crate::token::{parse_token, token_user_id, wf_token};

verus! {

/// What resolution produces for a given cookie value, on the model level.
pub open spec fn resolve_spec(token: Option<Seq<char>>) -> Result<Ctx, Error> {
    match token {
        Option::None => Err(Error::AuthFailNoAuthTokenCookie),
        Option::Some(s) => if wf_token(s) {
            Ok(Ctx { user_id: token_user_id(s) })
        } else {
            Err(Error::AuthFailTokenWrongFormat)
        },
    }
}

/// Resolve the request context from the auth cookie, once per request.
/// Resolution never fails the request itself: a missing or malformed token
/// yields a failure value that stays attached to the request, and only the
/// gate on protected routes turns it into a rejection.
pub fn resolve_ctx(token: Option<&str>) -> (r: Result<Ctx, Error>)
    ensures
        token is None ==> r == Err::<Ctx, Error>(Error::AuthFailNoAuthTokenCookie),
        token is Some && wf_token(token.unwrap()@) ==> r == Ok::<Ctx, Error>(
            Ctx { user_id: token_user_id(token.unwrap()@) },
        ),
        token is Some && !wf_token(token.unwrap()@) ==> r == Err::<Ctx, Error>(
            Error::AuthFailTokenWrongFormat,
        ),
{
    match token {
        None => Err(Error::AuthFailNoAuthTokenCookie),
        Some(t) => match parse_token(t) {
            Ok((uid, _exp, _sign)) => Ok(Ctx::new(uid)),
            Err(e) => Err(e),
        },
    }
}

/// Law: a token minted for `uid` resolves to a context carrying `uid`, so
/// a session opened by login authenticates as the logged-in identity.
pub proof fn lemma_minted_token_resolves(uid: u64)
    ensures
        resolve_spec(Option::Some(crate::token::token_of(uid))) == Ok::<Ctx, Error>(
            Ctx { user_id: uid },
        ),
{
    crate::token::lemma_minted_token_round_trip(uid);
}

/// The fail-closed authorization check on protected routes. It reads the
/// resolution outcome stored on the request, if any: a resolved context is
/// handed to the handler; a stored resolution error is the result; and if
/// nothing was stored, the check rejects with `AuthFailCtxNotInRequestExt`.
pub fn require_auth(ctx_ext: Option<Result<Ctx, Error>>) -> (r: Result<Ctx, Error>)
    ensures
        ctx_ext is None ==> r == Err::<Ctx, Error>(Error::AuthFailCtxNotInRequestExt),
        ctx_ext matches Some(res) ==> r == res,
{
    match ctx_ext {
        None => Err(Error::AuthFailCtxNotInRequestExt),
        Some(res) => res,
    }
}

} // verus!
