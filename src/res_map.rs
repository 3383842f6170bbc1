use vstd::prelude::*;

use crate::ctx::Ctx;
use crate::error::{ClientError, Error};

verus! {

pub open spec fn is_lower_hex(c: char) -> bool {
    ('0' <= c && c <= '9') || ('a' <= c && c <= 'f')
}

/// The hyphenated lower-case text of a version-4 UUID.
pub open spec fn is_uuid_v4_text(s: Seq<char>) -> bool {
    &&& s.len() == 36
    &&& forall|i: int|
        0 <= i < 36 ==> (if i == 8 || i == 13 || i == 18 || i == 23 {
            #[trigger] s[i] == '-'
        } else {
            is_lower_hex(s[i])
        })
    &&& s[14] == '4'
    &&& (s[19] == '8' || s[19] == '9' || s[19] == 'a' || s[19] == 'b')
}

/// Relies on uuid's `Uuid::new_v4`, a random UUID with the version-4 and
/// variant bits set, and on its `Display`, the hyphenated lower-case form.
#[verifier::external_body]
fn new_request_id() -> (r: String)
    ensures
        is_uuid_v4_text(r@),
{
    uuid::Uuid::new_v4().to_string()
}

/// The body sent to a client in place of a failed response:
/// `{"error":{"type":"<kind>","request_id":"<id>"}}`. The id is a UUID's
/// text, which needs no escaping.
pub open spec fn envelope_text(kind: Seq<char>, request_id: Seq<char>) -> Seq<char> {
    "{\"error\":{\"type\":\""@ + kind + "\",\"request_id\":\""@ + request_id + "\"}}"@
}

pub fn client_error_body(kind: ClientError, request_id: &str) -> (r: String)
    requires
        is_uuid_v4_text(request_id@),
    ensures
        r@ == envelope_text(kind.spec_name(), request_id@),
{
    let mut body = String::from_str("{\"error\":{\"type\":\"");
    body.append(kind.name());
    body.append("\",\"request_id\":\"");
    body.append(request_id);
    body.append("\"}}");
    body
}

/// A response that replaces the handler's.
pub struct ClientErrorResponse {
    pub status: u16,
    pub body: String,
}

/// The server-side record of a failed request, tied to what the client saw
/// by the request id.
pub struct RequestLogLine {
    pub request_id: String,
    pub method: String,
    pub uri: String,
    pub user_id: Option<u64>,
    pub error: Error,
    pub client_error: Option<ClientError>,
}

/// What the mapper decided for one response.
pub struct MappedResponse {
    /// The response to send instead of the handler's; `None` keeps the
    /// handler's response as it is.
    pub replacement: Option<ClientErrorResponse>,
    /// The line to log; `None` where the response carried no error.
    pub log: Option<RequestLogLine>,
}

pub open spec fn ctx_user_id(ctx: Option<Ctx>) -> Option<u64> {
    match ctx {
        Some(c) => Some(c.id()),
        None => None,
    }
}

/// The mapper's decision, for a response that carries `service_error` (or
/// none) and the request id `request_id`.
pub open spec fn maps_to(
    ctx: Option<Ctx>,
    uri: Seq<char>,
    method: Seq<char>,
    service_error: Option<Error>,
    request_id: Seq<char>,
    m: MappedResponse,
) -> bool {
    match service_error {
        None => m.replacement is None && m.log is None,
        Some(e) => {
            &&& match e.spec_client_status_and_error() {
                Some((status, kind)) => m.replacement matches Some(resp) && resp.status == status
                    && resp.body@ == envelope_text(kind.spec_name(), request_id),
                None => m.replacement is None,
            }
            &&& m.log matches Some(log) && log.request_id@ == request_id && log.method@ == method
                && log.uri@ == uri && log.user_id == ctx_user_id(ctx) && log.error == e
                && log.client_error == match e.spec_client_status_and_error() {
                Some((_, kind)) => Some(kind),
                None => None::<ClientError>,
            }
        },
    }
}

/// The mapper for a given request id: a response with an error is replaced by
/// the sanitized envelope where the error has a client mapping, and logged in
/// any case; a response without one is left alone.
pub fn map_response_with_id(
    ctx: Option<Ctx>,
    uri: &str,
    method: &str,
    service_error: Option<&Error>,
    request_id: &str,
) -> (r: MappedResponse)
    requires
        is_uuid_v4_text(request_id@),
    ensures
        maps_to(
            ctx,
            uri@,
            method@,
            match service_error {
                Some(e) => Some(*e),
                None => None,
            },
            request_id@,
            r,
        ),
{
    match service_error {
        None => MappedResponse { replacement: None, log: None },
        Some(e) => {
            let client_status_error = e.client_status_and_error();
            let (replacement, client_error) = match client_status_error {
                Some((status, kind)) => (
                    Some(ClientErrorResponse { status, body: client_error_body(kind, request_id) }),
                    Some(kind),
                ),
                None => (None, None),
            };
            let user_id = match ctx {
                Some(c) => Some(c.user_id()),
                None => None,
            };
            let log = RequestLogLine {
                request_id: request_id.to_owned(),
                method: method.to_owned(),
                uri: uri.to_owned(),
                user_id,
                error: e.clone(),
                client_error,
            };
            MappedResponse { replacement, log: Some(log) }
        },
    }
}

/// The outermost stage: maps the error that a response carries, if any, under
/// a fresh request id.
pub fn main_response_mapper(
    ctx: Option<Ctx>,
    uri: &str,
    method: &str,
    service_error: Option<&Error>,
) -> (r: MappedResponse)
    ensures
        service_error is None ==> r.replacement is None && r.log is None,
        service_error matches Some(e) ==> exists|id: Seq<char>|
            is_uuid_v4_text(id) && #[trigger] maps_to(ctx, uri@, method@, Some(*e), id, r),
{
    match service_error {
        None => MappedResponse { replacement: None, log: None },
        Some(e) => {
            let request_id = new_request_id();
            let r = map_response_with_id(ctx, uri, method, Some(e), request_id.as_str());
            assert(maps_to(ctx, uri@, method@, Some(*e), request_id@, r));
            r
        },
    }
}

/// The body that replaces a failed response depends on the client category
/// and the request id alone: two errors with one client mapping give the
/// same response, whatever diagnostic text either carries.
pub proof fn lemma_body_holds_no_diagnostic(
    ctx: Option<Ctx>,
    uri: Seq<char>,
    method: Seq<char>,
    e1: Error,
    e2: Error,
    request_id: Seq<char>,
    m1: MappedResponse,
    m2: MappedResponse,
)
    requires
        e1.spec_client_status_and_error() == e2.spec_client_status_and_error(),
        maps_to(ctx, uri, method, Some(e1), request_id, m1),
        maps_to(ctx, uri, method, Some(e2), request_id, m2),
    ensures
        m1.replacement is Some <==> m2.replacement is Some,
        m1.replacement matches Some(r1) ==> (m2.replacement matches Some(r2) && r1.status
            == r2.status && r1.body@ == r2.body@),
        m1.replacement matches Some(r1) ==> r1.body@ == envelope_text(
            e1.spec_client_status_and_error().unwrap().1.spec_name(),
            request_id,
        ),
{
}

/// A response that carries no error is kept as the handler made it, and
/// nothing is logged.
pub proof fn lemma_success_passes_through(
    ctx: Option<Ctx>,
    uri: Seq<char>,
    method: Seq<char>,
    request_id: Seq<char>,
    m: MappedResponse,
)
    requires
        maps_to(ctx, uri, method, None, request_id, m),
    ensures
        m.replacement is None,
        m.log is None,
{
}

} // verus!
