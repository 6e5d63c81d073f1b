//! Login: check the credentials against the demo credential stub and mint
//! the session token on success.

use vstd::prelude::*;

use crate::error::Error;
use crate::strutil::str_eq;
use crate::token::{mint_token, token_of};

verus! {

/// The user id the demo credential pair resolves to.
pub const DEMO_USER_ID: u64 = 1;

/// Does the payload carry the accepted demo credentials?
pub open spec fn good_creds(username: Seq<char>, pwd: Seq<char>) -> bool {
    username == "admin"@ && pwd == "admin"@
}

/// Check a login payload. On success the minted session token is returned
/// for the caller to place in the auth cookie; otherwise the login fails.
pub fn api_login(username: &str, pwd: &str) -> (r: Result<String, Error>)
    ensures
        good_creds(username@, pwd@) ==> (r matches Ok(tok) && tok@ == token_of(DEMO_USER_ID)),
        !good_creds(username@, pwd@) ==> r == Err::<String, Error>(Error::LoginFail),
{
    if str_eq(username, "admin") && str_eq(pwd, "admin") {
        Ok(mint_token(DEMO_USER_ID))
    } else {
        Err(Error::LoginFail)
    }
}

} // verus!
