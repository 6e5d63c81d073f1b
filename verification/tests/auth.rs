use ticket_service::auth::{require_auth, resolve_ctx};
use ticket_service::ctx::Ctx;
use ticket_service::error::Error;
use ticket_service::login::api_login;
use ticket_service::token::{mint_token, parse_token};

#[test]
fn parse_token_accepts_well_formed_tokens() {
    let (uid, exp, sign) = parse_token("user-1.exp.sign").expect("well-formed");
    assert_eq!(uid, 1);
    assert_eq!(exp, "exp");
    assert_eq!(sign, "sign");

    let (uid, exp, sign) = parse_token("user-42.2030-01-01.abcdef").expect("well-formed");
    assert_eq!(uid, 42);
    assert_eq!(exp, "2030-01-01");
    assert_eq!(sign, "abcdef");

    // the expiration may itself contain dots; the last dot starts the signature
    let (uid, exp, sign) = parse_token("user-7.a.b.c").expect("well-formed");
    assert_eq!(uid, 7);
    assert_eq!(exp, "a.b");
    assert_eq!(sign, "c");
}

#[test]
fn parse_token_rejects_malformed_tokens() {
    for bad in [
        "",
        "user-",
        "user-.exp.sign",
        "nouser-1.exp.sign",
        "user-1expsign",
        "user-1.expsign",
        "user-1..sign",
        "user-1.exp.",
        "user-x.exp.sign",
        "user-99999999999999999999999.exp.sign",
    ] {
        assert_eq!(
            parse_token(bad).expect_err(bad),
            Error::AuthFailTokenWrongFormat,
            "{bad}"
        );
    }
}

#[test]
fn mint_token_has_the_documented_shape() {
    assert_eq!(mint_token(1), "user-1.exp.sign");
    assert_eq!(mint_token(42), "user-42.exp.sign");
    assert_eq!(mint_token(0), "user-0.exp.sign");
    assert_eq!(mint_token(u64::MAX), format!("user-{}.exp.sign", u64::MAX));
}

#[test]
fn minted_tokens_parse_back() {
    for uid in [0u64, 1, 9, 10, 12345, u64::MAX] {
        let (parsed, exp, sign) = parse_token(&mint_token(uid)).expect("minted");
        assert_eq!(parsed, uid);
        assert_eq!(exp, "exp");
        assert_eq!(sign, "sign");
    }
}

#[test]
fn resolve_ctx_missing_token_defers_failure() {
    assert_eq!(resolve_ctx(None), Err(Error::AuthFailNoAuthTokenCookie));
}

#[test]
fn resolve_ctx_malformed_token_defers_failure() {
    assert_eq!(resolve_ctx(Some("garbage")), Err(Error::AuthFailTokenWrongFormat));
}

#[test]
fn resolve_ctx_well_formed_token_yields_context() {
    let ctx = resolve_ctx(Some("user-9.exp.sign")).expect("resolved");
    assert_eq!(ctx.user_id(), 9);
}

#[test]
fn gate_fails_closed() {
    // no outcome stored on the request
    assert_eq!(require_auth(None), Err(Error::AuthFailCtxNotInRequestExt));
    // a stored resolution error is handed back unchanged
    assert_eq!(
        require_auth(Some(Err(Error::AuthFailNoAuthTokenCookie))),
        Err(Error::AuthFailNoAuthTokenCookie)
    );
    assert_eq!(
        require_auth(Some(Err(Error::AuthFailTokenWrongFormat))),
        Err(Error::AuthFailTokenWrongFormat)
    );
    // a resolved context passes through
    assert_eq!(require_auth(Some(Ok(Ctx::new(3)))), Ok(Ctx::new(3)));
}

#[test]
fn login_mints_a_session_token_for_good_creds() {
    let tok = api_login("admin", "admin").expect("demo credentials");
    assert_eq!(tok, "user-1.exp.sign");
}

#[test]
fn login_rejects_bad_creds() {
    assert_eq!(api_login("admin", "wrong"), Err(Error::LoginFail));
    assert_eq!(api_login("demo1", "welcome"), Err(Error::LoginFail));
    assert_eq!(api_login("", ""), Err(Error::LoginFail));
}

#[test]
fn error_mapping_is_total_and_leaks_nothing() {
    assert_eq!(Error::LoginFail.client_status_and_error(), (401, "LoginFail"));
    assert_eq!(
        Error::AuthFailNoAuthTokenCookie.client_status_and_error(),
        (401, "AuthFailNoAuthTokenCookie")
    );
    assert_eq!(
        Error::AuthFailTokenWrongFormat.client_status_and_error(),
        (401, "AuthFailTokenWrongFormat")
    );
    assert_eq!(
        Error::AuthFailCtxNotInRequestExt.client_status_and_error(),
        (401, "AuthFailCtxNotInRequestExt")
    );
    assert_eq!(
        Error::TicketDeleteFailIdNotFound { id: 99 }.client_status_and_error(),
        (404, "TicketDeleteFailIdNotFound")
    );
}
