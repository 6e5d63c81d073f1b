//! One request through the whole core, in layer order: context resolution,
//! routing, the authorization gate on protected routes, the handler, and
//! the terminal response mapper — exactly one mapper pass on every path.
//! The transport adapter outside the core decodes wire payloads into
//! `HttpRequest` and performs the cookie and socket work.

use vstd::prelude::*;

use crate::auth::{require_auth, resolve_ctx, resolve_spec};
use crate::ctx::Ctx;
use crate::error::Error;
use crate::login::{api_login, good_creds, DEMO_USER_ID};
use crate::model::{visible, ModelController, TicketForCreate, TicketView};
use crate::response::{
    main_response_mapper, mapped_response, log_of, BodyView, EnvelopeView, HttpResponse,
    LogRecord, ResponseBody, ResponseView,
};
use crate::strutil::{all_digits, digits_val, parse_u64, str_eq, str_prefix};
use crate::token::token_of;

verus! {

/// The verbs the core's routing contract covers.
#[derive(Clone, Copy, Debug, PartialEq, Eq, Structural)]
pub enum HttpMethod {
    Get,
    Post,
    Delete,
}

/// The model of a decoded request body.
pub ghost enum RequestBodyView {
    NoBody,
    Login { username: Seq<char>, pwd: Seq<char> },
    TicketCreate { title: Seq<char> },
}

/// A decoded request body. Wire decoding happens outside the core; a body
/// that does not fit the matched route is answered with a plain `400`.
#[derive(Debug)]
pub enum RequestBody {
    NoBody,
    Login { username: String, pwd: String },
    TicketCreate { title: String },
}

impl View for RequestBody {
    type V = RequestBodyView;

    open spec fn view(&self) -> RequestBodyView {
        match self {
            RequestBody::NoBody => RequestBodyView::NoBody,
            RequestBody::Login { username, pwd } => RequestBodyView::Login {
                username: username@,
                pwd: pwd@,
            },
            RequestBody::TicketCreate { title } => RequestBodyView::TicketCreate {
                title: title@,
            },
        }
    }
}

/// The model of a request.
pub ghost struct RequestView {
    pub method: HttpMethod,
    pub path: Seq<char>,
    pub auth_token: Option<Seq<char>>,
    pub body: RequestBodyView,
}

/// One request as the core sees it: the verb, the path, the auth cookie
/// value if one came along, and the decoded body.
#[derive(Debug)]
pub struct HttpRequest {
    pub method: HttpMethod,
    pub path: String,
    pub auth_token: Option<String>,
    pub body: RequestBody,
}

impl View for HttpRequest {
    type V = RequestView;

    open spec fn view(&self) -> RequestView {
        RequestView {
            method: self.method,
            path: self.path@,
            auth_token: match &self.auth_token {
                Option::Some(t) => Option::Some(t@),
                Option::None => Option::None,
            },
            body: self.body@,
        }
    }
}

/// The unprotected login route.
pub open spec fn login_route(m: HttpMethod, p: Seq<char>) -> bool {
    m == HttpMethod::Post && p == "/api/login"@
}

/// The protected listing route.
pub open spec fn list_route(m: HttpMethod, p: Seq<char>) -> bool {
    m == HttpMethod::Get && p == "/api/tickets"@
}

/// The protected creation route.
pub open spec fn create_route(m: HttpMethod, p: Seq<char>) -> bool {
    m == HttpMethod::Post && p == "/api/tickets"@
}

/// The protected deletion route, with a nonempty trailing id segment.
pub open spec fn delete_route(m: HttpMethod, p: Seq<char>) -> bool {
    m == HttpMethod::Delete && p.len() > 13 && p.subrange(0, 13) == "/api/tickets/"@
}

/// The id segment of a deletion path.
pub open spec fn delete_seg(p: Seq<char>) -> Seq<char> {
    p.subrange(13, p.len() as int)
}

/// The routes behind the authorization gate.
pub open spec fn protected_route(m: HttpMethod, p: Seq<char>) -> bool {
    list_route(m, p) || create_route(m, p) || delete_route(m, p)
}

/// Does the id segment denote a `u64`?
pub open spec fn seg_id_ok(seg: Seq<char>) -> bool {
    seg.len() > 0 && all_digits(seg) && digits_val(seg) <= u64::MAX
}

/// A handler or gate failure on its way to the mapper: a placeholder
/// status with the failure attached to the response.
pub open spec fn error_pre(e: Error) -> ResponseView {
    ResponseView {
        status: 500,
        body: BodyView::NoBody,
        set_cookie: Option::None,
        error: Option::Some(e),
    }
}

/// A plain client-caused rejection (no internal failure attached).
pub open spec fn bad_request_pre() -> ResponseView {
    ResponseView {
        status: 400,
        body: BodyView::NoBody,
        set_cookie: Option::None,
        error: Option::None,
    }
}

/// A path the core does not serve; the adapter outside may still serve it
/// (static files), so this is a plain passthrough marker.
pub open spec fn not_found_pre() -> ResponseView {
    ResponseView {
        status: 404,
        body: BodyView::NoBody,
        set_cookie: Option::None,
        error: Option::None,
    }
}

/// The resolved context the mapper logs, if resolution succeeded.
pub open spec fn resolved_ctx_opt(token: Option<Seq<char>>) -> Option<Ctx> {
    match resolve_spec(token) {
        Ok(c) => Option::Some(c),
        Err(_) => Option::None,
    }
}

/// The response a request produces before the mapper runs, as a function
/// of the request and the store's state.
pub open spec fn pre_response_spec(req: RequestView, s0: Seq<Option<TicketView>>) -> ResponseView {
    if login_route(req.method, req.path) {
        match req.body {
            RequestBodyView::Login { username, pwd } => if good_creds(username, pwd) {
                ResponseView {
                    status: 200,
                    body: BodyView::LoginSuccess,
                    set_cookie: Option::Some(token_of(DEMO_USER_ID)),
                    error: Option::None,
                }
            } else {
                error_pre(Error::LoginFail)
            },
            _ => bad_request_pre(),
        }
    } else if protected_route(req.method, req.path) {
        match resolve_spec(req.auth_token) {
            Err(e) => error_pre(e),
            Ok(ctx) => if list_route(req.method, req.path) {
                ResponseView {
                    status: 200,
                    body: BodyView::TicketList(visible(s0)),
                    set_cookie: Option::None,
                    error: Option::None,
                }
            } else if create_route(req.method, req.path) {
                match req.body {
                    RequestBodyView::TicketCreate { title } => ResponseView {
                        status: 200,
                        body: BodyView::OneTicket(
                            TicketView { id: s0.len() as u64, cid: ctx.user_id, title },
                        ),
                        set_cookie: Option::None,
                        error: Option::None,
                    },
                    _ => bad_request_pre(),
                }
            } else {
                let seg = delete_seg(req.path);
                if seg_id_ok(seg) {
                    let id = digits_val(seg) as u64;
                    if id < s0.len() && s0[id as int] is Some {
                        ResponseView {
                            status: 200,
                            body: BodyView::OneTicket(s0[id as int].unwrap()),
                            set_cookie: Option::None,
                            error: Option::None,
                        }
                    } else {
                        error_pre(Error::TicketDeleteFailIdNotFound { id })
                    }
                } else {
                    bad_request_pre()
                }
            },
        }
    } else {
        not_found_pre()
    }
}

/// The store's state after a request: only an authorized create appends,
/// only an authorized delete of a present id tombstones; everything else
/// leaves the store as it was.
pub open spec fn post_store_spec(
    req: RequestView,
    s0: Seq<Option<TicketView>>,
) -> Seq<Option<TicketView>> {
    if protected_route(req.method, req.path) && resolve_spec(req.auth_token) is Ok {
        let ctx = resolve_spec(req.auth_token).unwrap();
        if create_route(req.method, req.path) {
            match req.body {
                RequestBodyView::TicketCreate { title } => s0.push(
                    Option::Some(TicketView { id: s0.len() as u64, cid: ctx.user_id, title }),
                ),
                _ => s0,
            }
        } else if delete_route(req.method, req.path) && seg_id_ok(delete_seg(req.path)) && (
        digits_val(delete_seg(req.path)) as u64) < s0.len() && s0[digits_val(delete_seg(req.path)) as int]
            is Some {
            s0.update(digits_val(delete_seg(req.path)) as int, Option::None::<TicketView>)
        } else {
            s0
        }
    } else {
        s0
    }
}

/// The wire name of a verb, for the log record.
pub open spec fn method_name_spec(m: HttpMethod) -> Seq<char> {
    match m {
        HttpMethod::Get => "GET"@,
        HttpMethod::Post => "POST"@,
        HttpMethod::Delete => "DELETE"@,
    }
}

fn method_str(m: HttpMethod) -> (r: &'static str)
    ensures
        r@ == method_name_spec(m),
{
    match m {
        HttpMethod::Get => "GET",
        HttpMethod::Post => "POST",
        HttpMethod::Delete => "DELETE",
    }
}

fn error_response(e: Error) -> (r: HttpResponse)
    ensures
        r@ == error_pre(e),
{
    HttpResponse { status: 500, body: ResponseBody::NoBody, set_cookie: None, error: Some(e) }
}

fn bad_request_response() -> (r: HttpResponse)
    ensures
        r@ == bad_request_pre(),
{
    HttpResponse { status: 400, body: ResponseBody::NoBody, set_cookie: None, error: None }
}

/// Run one request through the core: resolution (never fatal), routing,
/// the fail-closed gate on protected routes, the handler against the
/// store, and exactly one pass of the response mapper, which also yields
/// the one log record of the request.
pub fn handle_request(mc: &mut ModelController, req: &HttpRequest) -> (r: (HttpResponse, LogRecord))
    requires
        old(mc).wf(),
    ensures
        final(mc).wf(),
        final(mc)@ == post_store_spec(req@, old(mc)@),
        r.1.req_uuid@.len() == 36,
        r.0@ == mapped_response(pre_response_spec(req@, old(mc)@), r.1.req_uuid@),
        r.1@ == log_of(
            pre_response_spec(req@, old(mc)@),
            resolved_ctx_opt(req@.auth_token),
            method_name_spec(req.method),
            req.path@,
            r.1.req_uuid@,
        ),
{
    let token_ref: Option<&str> = match &req.auth_token {
        Some(s) => Some(s.as_str()),
        None => None,
    };
    proof {
        reveal_strlit("/api/login");
        reveal_strlit("/api/tickets");
        reveal_strlit("/api/tickets/");
    }
    let ctx_res = resolve_ctx(token_ref);
    let ctx_opt: Option<Ctx> = match &ctx_res {
        Ok(c) => Some(*c),
        Err(_) => None,
    };
    let pre: HttpResponse = if req.method == HttpMethod::Post && str_eq(
        req.path.as_str(),
        "/api/login",
    ) {
        match &req.body {
            RequestBody::Login { username, pwd } => {
                match api_login(username.as_str(), pwd.as_str()) {
                    Ok(tok) => HttpResponse {
                        status: 200,
                        body: ResponseBody::LoginSuccess,
                        set_cookie: Some(tok),
                        error: None,
                    },
                    Err(e) => error_response(e),
                }
            }
            _ => bad_request_response(),
        }
    } else if (req.method == HttpMethod::Get || req.method == HttpMethod::Post) && str_eq(
        req.path.as_str(),
        "/api/tickets",
    ) {
        match require_auth(Some(ctx_res)) {
            Err(e) => error_response(e),
            Ok(ctx) => {
                if req.method == HttpMethod::Get {
                    match mc.list_tickets(ctx) {
                        Ok(v) => HttpResponse {
                            status: 200,
                            body: ResponseBody::TicketList(v),
                            set_cookie: None,
                            error: None,
                        },
                        Err(e) => error_response(e),
                    }
                } else {
                    match &req.body {
                        RequestBody::TicketCreate { title } => {
                            match mc.create_ticket(
                                ctx,
                                TicketForCreate { title: title.clone() },
                            ) {
                                Ok(t) => HttpResponse {
                                    status: 200,
                                    body: ResponseBody::OneTicket(t),
                                    set_cookie: None,
                                    error: None,
                                },
                                Err(e) => error_response(e),
                            }
                        }
                        _ => bad_request_response(),
                    }
                }
            }
        }
    } else if req.method == HttpMethod::Delete && req.path.as_str().unicode_len() > 13
        && str_prefix(req.path.as_str(), "/api/tickets/") {
        match require_auth(Some(ctx_res)) {
            Err(e) => error_response(e),
            Ok(ctx) => {
                let n = req.path.as_str().unicode_len();
                let seg = req.path.as_str().substring_char(13, n);
                match parse_u64(seg) {
                    Some(id) => {
                        match mc.delete_ticket(ctx, id) {
                            Ok(t) => HttpResponse {
                                status: 200,
                                body: ResponseBody::OneTicket(t),
                                set_cookie: None,
                                error: None,
                            },
                            Err(e) => error_response(e),
                        }
                    }
                    None => bad_request_response(),
                }
            }
        }
    } else {
        HttpResponse { status: 404, body: ResponseBody::NoBody, set_cookie: None, error: None }
    };
    let method_name = method_str(req.method);
    main_response_mapper(ctx_opt, req.path.as_str(), method_name, pre)
}

/// Law: on a protected route without a valid resolved context, the final
/// response is `401` carrying exactly the label of the specific failure
/// reason, and the store is untouched — no handler logic runs.
pub proof fn lemma_protected_fails_closed(
    req: RequestView,
    s0: Seq<Option<TicketView>>,
    uuid: Seq<char>,
)
    requires
        protected_route(req.method, req.path),
        resolve_spec(req.auth_token) is Err,
    ensures
        post_store_spec(req, s0) == s0,
        mapped_response(pre_response_spec(req, s0), uuid).status == 401,
        mapped_response(pre_response_spec(req, s0), uuid).body == BodyView::ErrorBody(
            EnvelopeView {
                error_type: resolve_spec(req.auth_token)->Err_0.label_spec(),
                req_uuid: uuid,
            },
        ),
{
    reveal_strlit("/api/login");
    reveal_strlit("/api/tickets");
    reveal_strlit("/api/tickets/");
    assert(!login_route(req.method, req.path));
}

} // verus!
