//! The terminal response-mapping stage. Every response passes through it
//! exactly once: a carried internal failure is converted to the single
//! client-facing envelope shape, and one log record is emitted per request.

use vstd::prelude::*;

use crate::ctx::Ctx;
use crate::error::Error;
use crate::model::{tickets_view, Ticket, TicketView};

verus! {

/// The model of the client error envelope `{error: {type, req_uuid}}`.
pub ghost struct EnvelopeView {
    pub error_type: Seq<char>,
    pub req_uuid: Seq<char>,
}

/// The client error envelope: the public label and the correlation id.
#[derive(Debug)]
pub struct ErrorEnvelope {
    pub error_type: String,
    pub req_uuid: String,
}

impl View for ErrorEnvelope {
    type V = EnvelopeView;

    open spec fn view(&self) -> EnvelopeView {
        EnvelopeView { error_type: self.error_type@, req_uuid: self.req_uuid@ }
    }
}

/// The model of a response body.
pub ghost enum BodyView {
    NoBody,
    LoginSuccess,
    OneTicket(TicketView),
    TicketList(Seq<TicketView>),
    ErrorBody(EnvelopeView),
}

/// A response body: empty, a login success marker, ticket payloads, or the
/// error envelope the mapper builds.
#[derive(Debug)]
pub enum ResponseBody {
    NoBody,
    LoginSuccess,
    OneTicket(Ticket),
    TicketList(Vec<Ticket>),
    ErrorBody(ErrorEnvelope),
}

impl View for ResponseBody {
    type V = BodyView;

    open spec fn view(&self) -> BodyView {
        match self {
            ResponseBody::NoBody => BodyView::NoBody,
            ResponseBody::LoginSuccess => BodyView::LoginSuccess,
            ResponseBody::OneTicket(t) => BodyView::OneTicket(t@),
            ResponseBody::TicketList(v) => BodyView::TicketList(tickets_view(v@)),
            ResponseBody::ErrorBody(env) => BodyView::ErrorBody(env@),
        }
    }
}

/// The model of a response.
pub ghost struct ResponseView {
    pub status: u16,
    pub body: BodyView,
    pub set_cookie: Option<Seq<char>>,
    pub error: Option<Error>,
}

/// A response on its way out: a status, a body, at most one cookie to set,
/// and the internal failure it carries, if any. The carried failure is what
/// the mapper converts; it never reaches the transport raw.
#[derive(Debug)]
pub struct HttpResponse {
    pub status: u16,
    pub body: ResponseBody,
    pub set_cookie: Option<String>,
    pub error: Option<Error>,
}

impl View for HttpResponse {
    type V = ResponseView;

    open spec fn view(&self) -> ResponseView {
        ResponseView {
            status: self.status,
            body: self.body@,
            set_cookie: match &self.set_cookie {
                Option::Some(c) => Option::Some(c@),
                Option::None => Option::None,
            },
            error: self.error,
        }
    }
}

/// The model of a log record.
pub ghost struct LogView {
    pub req_uuid: Seq<char>,
    pub http_method: Seq<char>,
    pub uri: Seq<char>,
    pub user_id: Option<u64>,
    pub error: Option<Error>,
    pub client_error_label: Option<Seq<char>>,
}

/// The one structured record emitted per request for the external log sink.
/// The sink itself (and its timestamp) lives outside the verified core;
/// its failures are swallowed there.
#[derive(Debug)]
pub struct LogRecord {
    pub req_uuid: String,
    pub http_method: String,
    pub uri: String,
    pub user_id: Option<u64>,
    pub error: Option<Error>,
    pub client_error_label: Option<String>,
}

impl View for LogRecord {
    type V = LogView;

    open spec fn view(&self) -> LogView {
        LogView {
            req_uuid: self.req_uuid@,
            http_method: self.http_method@,
            uri: self.uri@,
            user_id: self.user_id,
            error: self.error,
            client_error_label: match &self.client_error_label {
                Option::Some(l) => Option::Some(l@),
                Option::None => Option::None,
            },
        }
    }
}

/// What the mapper makes of a response: a carried failure is replaced by
/// its `(status, label)` mapping and the one error envelope; a clean
/// response passes through unchanged. Cookies set earlier are preserved
/// either way.
pub open spec fn mapped_response(res: ResponseView, uuid: Seq<char>) -> ResponseView {
    match res.error {
        Option::Some(e) => ResponseView {
            status: e.status_spec(),
            body: BodyView::ErrorBody(
                EnvelopeView { error_type: e.label_spec(), req_uuid: uuid },
            ),
            set_cookie: res.set_cookie,
            error: res.error,
        },
        Option::None => res,
    }
}

/// The log record the mapper emits for a response.
pub open spec fn log_of(
    res: ResponseView,
    ctx: Option<Ctx>,
    method: Seq<char>,
    uri: Seq<char>,
    uuid: Seq<char>,
) -> LogView {
    LogView {
        req_uuid: uuid,
        http_method: method,
        uri: uri,
        user_id: match ctx {
            Option::Some(c) => Option::Some(c.user_id),
            Option::None => Option::None,
        },
        error: res.error,
        client_error_label: match res.error {
            Option::Some(e) => Option::Some(e.label_spec()),
            Option::None => Option::None,
        },
    }
}

/// Law: a response carrying an internal failure is translated to exactly
/// one error envelope, holding the failure's public label and the (always
/// nonempty) correlation id of this request; nothing else of the mapping
/// depends on the failure.
pub proof fn lemma_error_mapped_once(res: ResponseView, uuid: Seq<char>)
    requires
        res.error is Some,
        uuid.len() > 0,
    ensures
        mapped_response(res, uuid).body matches BodyView::ErrorBody(env)
            && env.req_uuid == uuid
            && env.req_uuid.len() > 0
            && env.error_type == res.error.unwrap().label_spec(),
        mapped_response(res, uuid).status == res.error.unwrap().status_spec(),
        mapped_response(res, uuid).set_cookie == res.set_cookie,
{
}

/// Relies on `uuid::Uuid::new_v4` and its `Display` form: a fresh random
/// version-4 UUID rendered in the hyphenated format, which is exactly 36
/// characters. Nothing more is assumed: the value is random, so two calls
/// may (and almost surely do) differ, but no contract states that.
#[verifier::external_body]
fn fresh_uuid() -> (r: String)
    ensures
        r@.len() == 36,
{
    uuid::Uuid::new_v4().to_string()
}

/// The terminal mapping stage: generate the correlation id, convert a
/// carried failure into exactly one error envelope with the mapped status,
/// and build the one log record for this request.
pub fn main_response_mapper(ctx: Option<Ctx>, uri: &str, req_method: &str, res: HttpResponse) -> (r:
    (HttpResponse, LogRecord))
    ensures
        r.1.req_uuid@.len() == 36,
        r.0@ == mapped_response(res@, r.1.req_uuid@),
        r.1@ == log_of(res@, ctx, req_method@, uri@, r.1.req_uuid@),
{
    let uuid = fresh_uuid();
    let HttpResponse { status, body, set_cookie, error } = res;
    let user_id: Option<u64> = match &ctx {
        Some(c) => Some(c.user_id()),
        None => None,
    };
    match &error {
        Some(e) => {
            let (client_status, client_label) = e.client_status_and_error();
            let out = HttpResponse {
                status: client_status,
                body: ResponseBody::ErrorBody(
                    ErrorEnvelope { error_type: client_label.to_owned(), req_uuid: uuid.clone() },
                ),
                set_cookie,
                error,
            };
            let log = LogRecord {
                req_uuid: uuid,
                http_method: req_method.to_owned(),
                uri: uri.to_owned(),
                user_id,
                error,
                client_error_label: Some(client_label.to_owned()),
            };
            (out, log)
        }
        None => {
            let out = HttpResponse { status, body, set_cookie, error };
            let log = LogRecord {
                req_uuid: uuid,
                http_method: req_method.to_owned(),
                uri: uri.to_owned(),
                user_id,
                error,
                client_error_label: None,
            };
            (out, log)
        }
    }
}

} // verus!
