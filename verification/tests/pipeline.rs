use ticket_service::model::ModelController;
use ticket_service::pipeline::{handle_request, HttpMethod, HttpRequest, RequestBody};
use ticket_service::response::{HttpResponse, LogRecord, ResponseBody};

fn fresh_store() -> ModelController {
    ModelController::new().expect("a fresh store")
}

fn get(path: &str, token: Option<&str>) -> HttpRequest {
    HttpRequest {
        method: HttpMethod::Get,
        path: path.to_owned(),
        auth_token: token.map(|t| t.to_owned()),
        body: RequestBody::NoBody,
    }
}

fn post(path: &str, token: Option<&str>, body: RequestBody) -> HttpRequest {
    HttpRequest {
        method: HttpMethod::Post,
        path: path.to_owned(),
        auth_token: token.map(|t| t.to_owned()),
        body,
    }
}

fn delete(path: &str, token: Option<&str>) -> HttpRequest {
    HttpRequest {
        method: HttpMethod::Delete,
        path: path.to_owned(),
        auth_token: token.map(|t| t.to_owned()),
        body: RequestBody::NoBody,
    }
}

fn login_body(username: &str, pwd: &str) -> RequestBody {
    RequestBody::Login { username: username.to_owned(), pwd: pwd.to_owned() }
}

fn create_body(title: &str) -> RequestBody {
    RequestBody::TicketCreate { title: title.to_owned() }
}

fn error_type(res: &HttpResponse) -> &str {
    match &res.body {
        ResponseBody::ErrorBody(env) => env.error_type.as_str(),
        other => panic!("expected an error envelope, got {other:?}"),
    }
}

// The end-to-end scenario: log in, create, list, delete, and watch the
// tombstone keep the id from coming back.
#[test]
fn quick_dev() {
    let mut mc = fresh_store();

    // POST /api/login with the demo credentials: success + session cookie
    let (res, _log) = handle_request(
        &mut mc,
        &post("/api/login", None, login_body("admin", "admin")),
    );
    assert_eq!(res.status, 200);
    assert!(matches!(res.body, ResponseBody::LoginSuccess));
    let cookie = res.set_cookie.expect("session cookie set");
    assert_eq!(cookie, "user-1.exp.sign");

    // POST /api/tickets with that cookie
    let (res, _log) = handle_request(
        &mut mc,
        &post("/api/tickets", Some(&cookie), create_body("My first ticket")),
    );
    assert_eq!(res.status, 200);
    let ticket = match res.body {
        ResponseBody::OneTicket(t) => t,
        other => panic!("expected a ticket, got {other:?}"),
    };
    assert_eq!(ticket.id, 0);
    assert_eq!(ticket.cid, 1);
    assert_eq!(ticket.title, "My first ticket");

    // GET /api/tickets: exactly that one ticket
    let (res, _log) = handle_request(&mut mc, &get("/api/tickets", Some(&cookie)));
    assert_eq!(res.status, 200);
    match &res.body {
        ResponseBody::TicketList(v) => {
            assert_eq!(v.len(), 1);
            assert_eq!(v[0].id, 0);
            assert_eq!(v[0].title, "My first ticket");
        }
        other => panic!("expected a list, got {other:?}"),
    }

    // DELETE /api/tickets/0: returns the same ticket
    let (res, _log) = handle_request(&mut mc, &delete("/api/tickets/0", Some(&cookie)));
    assert_eq!(res.status, 200);
    match res.body {
        ResponseBody::OneTicket(t) => {
            assert_eq!(t.id, 0);
            assert_eq!(t.title, "My first ticket");
        }
        other => panic!("expected the removed ticket, got {other:?}"),
    }

    // GET /api/tickets: empty again
    let (res, _log) = handle_request(&mut mc, &get("/api/tickets", Some(&cookie)));
    match &res.body {
        ResponseBody::TicketList(v) => assert!(v.is_empty()),
        other => panic!("expected a list, got {other:?}"),
    }

    // DELETE /api/tickets/0 again: 404 with the id echoed in the label
    let (res, log) = handle_request(&mut mc, &delete("/api/tickets/0", Some(&cookie)));
    assert_eq!(res.status, 404);
    assert_eq!(error_type(&res), "TicketDeleteFailIdNotFound");
    assert_eq!(
        log.error,
        Some(ticket_service::error::Error::TicketDeleteFailIdNotFound { id: 0 })
    );
}

// A protected route with no cookie at all: 401 with the specific reason.
#[test]
fn tickets_without_cookie_is_unauthorized() {
    let mut mc = fresh_store();
    let (res, log) = handle_request(&mut mc, &get("/api/tickets", None));
    assert_eq!(res.status, 401);
    assert_eq!(error_type(&res), "AuthFailNoAuthTokenCookie");
    assert_eq!(log.user_id, None);
    // no handler logic ran: the store still lists nothing once authorized
    let (res, _log) = handle_request(&mut mc, &get("/api/tickets", Some("user-1.exp.sign")));
    match &res.body {
        ResponseBody::TicketList(v) => assert!(v.is_empty()),
        other => panic!("expected a list, got {other:?}"),
    }
}

#[test]
fn tickets_with_malformed_cookie_is_unauthorized() {
    let mut mc = fresh_store();
    let (res, _log) = handle_request(
        &mut mc,
        &post("/api/tickets", Some("not-a-token"), create_body("x")),
    );
    assert_eq!(res.status, 401);
    assert_eq!(error_type(&res), "AuthFailTokenWrongFormat");
}

// Every carried failure becomes one envelope with a fresh, nonempty
// correlation id; two sequential requests never share one.
#[test]
fn correlation_ids_are_nonempty_and_not_reused() {
    let mut mc = fresh_store();
    let (res1, log1) = handle_request(&mut mc, &get("/api/tickets", None));
    let (res2, log2) = handle_request(&mut mc, &get("/api/tickets", None));
    let (env1, env2) = (error_type(&res1).to_owned(), error_type(&res2).to_owned());
    assert_eq!(env1, env2);
    assert_eq!(log1.req_uuid.len(), 36);
    assert_eq!(log2.req_uuid.len(), 36);
    assert_ne!(log1.req_uuid, log2.req_uuid);
    match (&res1.body, &res2.body) {
        (ResponseBody::ErrorBody(e1), ResponseBody::ErrorBody(e2)) => {
            assert_eq!(e1.req_uuid, log1.req_uuid);
            assert_eq!(e2.req_uuid, log2.req_uuid);
            assert_ne!(e1.req_uuid, e2.req_uuid);
        }
        _ => panic!("expected two envelopes"),
    }
}

// A clean response passes through the mapper unchanged, and the log record
// still carries the resolved identity and no label.
#[test]
fn clean_responses_pass_through_with_a_log_record() {
    let mut mc = fresh_store();
    let (res, log): (HttpResponse, LogRecord) =
        handle_request(&mut mc, &get("/api/tickets", Some("user-8.exp.sign")));
    assert_eq!(res.status, 200);
    assert!(res.error.is_none());
    assert_eq!(log.user_id, Some(8));
    assert_eq!(log.error, None);
    assert_eq!(log.client_error_label, None);
    assert_eq!(log.http_method, "GET");
    assert_eq!(log.uri, "/api/tickets");
}

// Paths the core does not serve are passed on untouched for the outer
// layer (static files) to handle.
#[test]
fn unrouted_paths_fall_through() {
    let mut mc = fresh_store();
    let (res, log) = handle_request(&mut mc, &get("/hello", None));
    assert_eq!(res.status, 404);
    assert!(matches!(res.body, ResponseBody::NoBody));
    assert!(res.error.is_none());
    assert_eq!(log.client_error_label, None);
}

// A deletion path whose id segment is not a number is a plain client
// rejection, carrying no internal failure.
#[test]
fn non_numeric_delete_segment_is_bad_request() {
    let mut mc = fresh_store();
    let (res, _log) = handle_request(&mut mc, &delete("/api/tickets/abc", Some("user-1.exp.sign")));
    assert_eq!(res.status, 400);
    assert!(res.error.is_none());
}

// The login route is not protected: failing without a cookie is LoginFail,
// never an auth-cookie failure.
#[test]
fn login_route_is_unprotected() {
    let mut mc = fresh_store();
    let (res, _log) = handle_request(
        &mut mc,
        &post("/api/login", None, login_body("admin", "nope")),
    );
    assert_eq!(res.status, 401);
    assert_eq!(error_type(&res), "LoginFail");
}
