use vstd::prelude::*;

use crate::json::{is_json_text, json_accepts};
use crate::method::{is_method_token, method_is_recognized};
use crate::payload::{
    BodyModel, DispatchError, ErrorModel, Header, NormalizedBody, OutboundModel, OutboundRequest,
    RequestModel, RequestPayload, ResponseModel, ResponsePayload, TransportEvent,
    TransportEventModel,
};

verus! {

/// What preparing a payload yields: the outbound request that the transport
/// is to send, or the rejection raised before any network activity. The
/// headers are forwarded exactly as supplied (an absent mapping becomes the
/// empty list), and the body is forwarded verbatim or stays absent.
pub open spec fn spec_prepare(p: RequestModel) -> Result<OutboundModel, ErrorModel> {
    if is_method_token(p.method) {
        Ok(
            OutboundModel {
                method: p.method,
                url: p.url,
                headers: match p.headers {
                    Some(hs) => hs,
                    None => Seq::empty(),
                },
                body: p.body,
            },
        )
    } else {
        Err(ErrorModel::InvalidMethod(p.method))
    }
}

/// What normalizing a response body yields: the text itself when it is a
/// complete JSON document, otherwise the raw wrapper around it.
pub open spec fn spec_normalize_body(t: Seq<char>) -> BodyModel {
    if is_json_text(t) {
        BodyModel::Json(t)
    } else {
        BodyModel::RawWrapped(t)
    }
}

/// What the whole dispatch yields once the transport has answered with a
/// status code and a body text.
pub open spec fn spec_normalize(status: u16, t: Seq<char>) -> ResponseModel {
    ResponseModel { status, body: spec_normalize_body(t) }
}

/// Resolve the method and build the outbound request. Fails with
/// `InvalidMethod`, before any network activity, exactly when the method
/// string is not a recognized HTTP verb; otherwise forwards URL, every header
/// pair and the optional body exactly as supplied.
pub fn prepare(payload: RequestPayload) -> (r: Result<OutboundRequest, DispatchError>)
    ensures
        r is Ok <==> is_method_token(payload@.method),
        match r {
            Ok(out) => spec_prepare(payload@) == Ok::<OutboundModel, ErrorModel>(out@),
            Err(e) => spec_prepare(payload@) == Err::<OutboundModel, ErrorModel>(e@),
        },
{
    if !method_is_recognized(payload.method.as_str()) {
        return Err(DispatchError::InvalidMethod(payload.method));
    }
    let headers: Vec<Header> = match payload.headers {
        Some(hs) => hs,
        None => Vec::new(),
    };
    let out = OutboundRequest { method: payload.method, url: payload.url, headers, body: payload.body };
    proof {
        assert(out@ =~= spec_prepare(payload@)->Ok_0);
    }
    Ok(out)
}

/// Normalize the transport's answer into the response envelope: keep the
/// status code, parse the body text as JSON when it is one, and wrap any
/// other text — empty text included — as `{ "raw": <text> }`. This step has
/// no failure path.
pub fn normalize(status: u16, text: String) -> (r: ResponsePayload)
    ensures
        r@ == spec_normalize(status, text@),
        text@.len() == 0 ==> r@.body == BodyModel::RawWrapped(text@),
{
    if json_accepts(text.as_str()) {
        ResponsePayload { status, body: NormalizedBody::Json(text) }
    } else {
        ResponsePayload { status, body: NormalizedBody::RawWrapped(text) }
    }
}

/// What concluding one dispatch yields from what the transport reported: a
/// complete answer is normalized, a failed send becomes `TransportError`, and
/// a failed drain of the response stream becomes `BodyReadError`.
pub open spec fn spec_conclude(ev: TransportEventModel) -> Result<ResponseModel, ErrorModel> {
    match ev {
        TransportEventModel::Response(status, t) => Ok(spec_normalize(status, t)),
        TransportEventModel::SendFailed(m) => Err(ErrorModel::TransportError(m)),
        TransportEventModel::ReadFailed(m) => Err(ErrorModel::BodyReadError(m)),
    }
}

/// What one whole execution yields: the rejection raised while preparing the
/// payload, or else whatever concluding the transport's report yields. The
/// event stands for what the transport reported for the prepared request.
pub open spec fn spec_execute(p: RequestModel, ev: TransportEventModel) -> Result<
    ResponseModel,
    ErrorModel,
> {
    match spec_prepare(p) {
        Ok(_) => spec_conclude(ev),
        Err(e) => Err(e),
    }
}

/// Conclude one dispatch from the transport's report: normalize a complete
/// answer, and map each failure to its own error kind, keeping the
/// transport's account of the cause verbatim. After a complete answer this
/// step has no failure path.
pub fn conclude(event: TransportEvent) -> (r: Result<ResponsePayload, DispatchError>)
    ensures
        r is Ok <==> event@ matches TransportEventModel::Response(..),
        match r {
            Ok(resp) => spec_conclude(event@) == Ok::<ResponseModel, ErrorModel>(resp@),
            Err(e) => spec_conclude(event@) == Err::<ResponseModel, ErrorModel>(e@),
        },
{
    match event {
        TransportEvent::Response(status, text) => Ok(normalize(status, text)),
        TransportEvent::SendFailed(m) => Err(DispatchError::TransportError(m)),
        TransportEvent::ReadFailed(m) => Err(DispatchError::BodyReadError(m)),
    }
}

// ---------------------------------------------------------------------------
// Laws
// ---------------------------------------------------------------------------

/// An unrecognized method string is rejected up front, carrying the offending
/// string, and the outcome is the same whatever the transport might have
/// reported: no network activity is consulted for it. A recognized method
/// always yields an outbound request.
pub proof fn lemma_invalid_method_rejected(p: RequestModel)
    ensures
        !is_method_token(p.method) ==> spec_prepare(p) == Err::<OutboundModel, ErrorModel>(
            ErrorModel::InvalidMethod(p.method),
        ),
        !is_method_token(p.method) ==> forall|ev: TransportEventModel|
            spec_execute(p, ev) == Err::<ResponseModel, ErrorModel>(
                ErrorModel::InvalidMethod(p.method),
            ),
        is_method_token(p.method) ==> spec_prepare(p) is Ok,
{
}

/// Every header pair supplied with the payload appears among the outbound
/// request's headers, at its own position: forwarding neither drops, merges
/// nor reorders pairs.
pub proof fn lemma_headers_forwarded(p: RequestModel, i: int)
    requires
        is_method_token(p.method),
        p.headers is Some,
        0 <= i < p.headers->0.len(),
    ensures
        spec_prepare(p)->Ok_0.headers == p.headers->0,
        spec_prepare(p)->Ok_0.headers.contains(p.headers->0[i]),
{
    assert(spec_prepare(p)->Ok_0.headers[i] == p.headers->0[i]);
}

/// A payload without a body yields an outbound request without a body: no
/// request body is sent when none was supplied.
pub proof fn lemma_absent_body_not_sent(p: RequestModel)
    requires
        is_method_token(p.method),
        p.body is None,
    ensures
        spec_prepare(p)->Ok_0.body is None,
{
}

/// Dispatch is deterministic: two executions from the same payload that
/// observe the same report from the transport build equal outbound requests
/// and end in equal results, status and body alike.
pub proof fn lemma_execute_idempotent(
    p: RequestModel,
    ev: TransportEventModel,
    req1: Result<OutboundModel, ErrorModel>,
    req2: Result<OutboundModel, ErrorModel>,
    r1: Result<ResponseModel, ErrorModel>,
    r2: Result<ResponseModel, ErrorModel>,
)
    requires
        req1 == spec_prepare(p),
        req2 == spec_prepare(p),
        r1 == spec_execute(p, ev),
        r2 == spec_execute(p, ev),
    ensures
        req1 == req2,
        r1 == r2,
{
}

} // verus!
