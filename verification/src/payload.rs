use vstd::prelude::*;

verus! {

// ---------------------------------------------------------------------------
// Input
// ---------------------------------------------------------------------------

/// One header entry, forwarded name and value exactly as supplied.
#[derive(Clone, Debug, PartialEq, Eq)]
pub struct Header {
    pub name: String,
    pub value: String,
}

/// Mathematical model of a header entry.
#[verifier::ext_equal]
pub ghost struct HeaderModel {
    pub name: Seq<char>,
    pub value: Seq<char>,
}

impl View for Header {
    type V = HeaderModel;

    open spec fn view(&self) -> HeaderModel {
        HeaderModel { name: self.name@, value: self.value@ }
    }
}

/// The caller's description of one HTTP call: a method string, an absolute
/// URL, and optional headers and body.
#[derive(Clone, Debug, PartialEq, Eq)]
pub struct RequestPayload {
    pub method: String,
    pub url: String,
    pub headers: Option<Vec<Header>>,
    pub body: Option<String>,
}

/// Mathematical model of a request payload.
#[verifier::ext_equal]
pub ghost struct RequestModel {
    pub method: Seq<char>,
    pub url: Seq<char>,
    pub headers: Option<Seq<HeaderModel>>,
    pub body: Option<Seq<char>>,
}

impl View for RequestPayload {
    type V = RequestModel;

    open spec fn view(&self) -> RequestModel {
        RequestModel {
            method: self.method@,
            url: self.url@,
            headers: match self.headers {
                Some(hs) => Some(hs@.map_values(|h: Header| h@)),
                None => None,
            },
            body: match self.body {
                Some(b) => Some(b@),
                None => None,
            },
        }
    }
}

// ---------------------------------------------------------------------------
// Outbound request
// ---------------------------------------------------------------------------

/// A validated request, ready to be handed to the transport: the method has
/// been recognized, and headers and body are carried over verbatim. An absent
/// headers mapping becomes the empty list; an absent body stays absent, so no
/// request body is sent.
#[derive(Clone, Debug, PartialEq, Eq)]
pub struct OutboundRequest {
    pub method: String,
    pub url: String,
    pub headers: Vec<Header>,
    pub body: Option<String>,
}

/// Mathematical model of an outbound request.
#[verifier::ext_equal]
pub ghost struct OutboundModel {
    pub method: Seq<char>,
    pub url: Seq<char>,
    pub headers: Seq<HeaderModel>,
    pub body: Option<Seq<char>>,
}

impl View for OutboundRequest {
    type V = OutboundModel;

    open spec fn view(&self) -> OutboundModel {
        OutboundModel {
            method: self.method@,
            url: self.url@,
            headers: self.headers@.map_values(|h: Header| h@),
            body: match self.body {
                Some(b) => Some(b@),
                None => None,
            },
        }
    }
}

// ---------------------------------------------------------------------------
// Errors
// ---------------------------------------------------------------------------

/// The failures one dispatch can end in, each carrying the underlying cause
/// as text. The kinds stay distinguishable here; only the outermost boundary
/// flattens them to a single message.
#[derive(Clone, Debug, PartialEq, Eq)]
pub enum DispatchError {
    /// The method string is not a recognized HTTP verb; raised before any
    /// network activity, carrying the offending method string.
    InvalidMethod(String),
    /// The transport could not complete the send (DNS, connection, TLS).
    TransportError(String),
    /// The response stream could not be fully drained.
    BodyReadError(String),
}

/// Mathematical model of a dispatch error.
#[verifier::ext_equal]
pub ghost enum ErrorModel {
    InvalidMethod(Seq<char>),
    TransportError(Seq<char>),
    BodyReadError(Seq<char>),
}

impl ErrorModel {
    /// The text carried by the error, whichever kind it is.
    pub open spec fn detail(self) -> Seq<char> {
        match self {
            ErrorModel::InvalidMethod(m) => m,
            ErrorModel::TransportError(m) => m,
            ErrorModel::BodyReadError(m) => m,
        }
    }
}

impl View for DispatchError {
    type V = ErrorModel;

    open spec fn view(&self) -> ErrorModel {
        match self {
            DispatchError::InvalidMethod(m) => ErrorModel::InvalidMethod(m@),
            DispatchError::TransportError(m) => ErrorModel::TransportError(m@),
            DispatchError::BodyReadError(m) => ErrorModel::BodyReadError(m@),
        }
    }
}

impl DispatchError {
    /// A short label naming the error kind.
    pub fn kind_label(&self) -> (r: &'static str)
        ensures
            self@ matches ErrorModel::InvalidMethod(_) ==> r@ == "invalid method"@,
            self@ matches ErrorModel::TransportError(_) ==> r@ == "transport failure"@,
            self@ matches ErrorModel::BodyReadError(_) ==> r@ == "body read failure"@,
    {
        match self {
            DispatchError::InvalidMethod(_) => "invalid method",
            DispatchError::TransportError(_) => "transport failure",
            DispatchError::BodyReadError(_) => "body read failure",
        }
    }

    /// The text carried by the error: the method string that was rejected, or
    /// the transport's own account of what failed.
    pub fn detail(&self) -> (r: &String)
        ensures
            r@ == self@.detail(),
    {
        match self {
            DispatchError::InvalidMethod(m) => m,
            DispatchError::TransportError(m) => m,
            DispatchError::BodyReadError(m) => m,
        }
    }
}

// ---------------------------------------------------------------------------
// Transport events
// ---------------------------------------------------------------------------

/// What the transport reports back for one dispatched request: the single
/// suspension point of the operation ends in exactly one of these.
#[derive(Clone, Debug, PartialEq, Eq)]
pub enum TransportEvent {
    /// The server answered: its status code, and the response body drained
    /// completely as text.
    Response(u16, String),
    /// The send did not complete (DNS failure, connection refused, TLS
    /// failure), with the transport's account of it.
    SendFailed(String),
    /// The response stream could not be fully drained, with the transport's
    /// account of it.
    ReadFailed(String),
}

/// Mathematical model of a transport event.
#[verifier::ext_equal]
pub ghost enum TransportEventModel {
    Response(u16, Seq<char>),
    SendFailed(Seq<char>),
    ReadFailed(Seq<char>),
}

impl View for TransportEvent {
    type V = TransportEventModel;

    open spec fn view(&self) -> TransportEventModel {
        match self {
            TransportEvent::Response(status, t) => TransportEventModel::Response(*status, t@),
            TransportEvent::SendFailed(m) => TransportEventModel::SendFailed(m@),
            TransportEvent::ReadFailed(m) => TransportEventModel::ReadFailed(m@),
        }
    }
}

// ---------------------------------------------------------------------------
// Response
// ---------------------------------------------------------------------------

/// The normalized response body. The server's text is either a complete JSON
/// document, kept as it came, or arbitrary text to be presented as the JSON
/// object with the single key `raw` holding that text.
#[derive(Clone, Debug, PartialEq, Eq)]
pub enum NormalizedBody {
    /// The response text parsed as JSON; the document text is kept verbatim.
    Json(String),
    /// The response text was not valid JSON; it becomes `{ "raw": <text> }`.
    RawWrapped(String),
}

/// Mathematical model of a normalized body.
#[verifier::ext_equal]
pub ghost enum BodyModel {
    Json(Seq<char>),
    RawWrapped(Seq<char>),
}

impl BodyModel {
    /// The server's original response text, whichever way it was normalized.
    pub open spec fn text(self) -> Seq<char> {
        match self {
            BodyModel::Json(t) => t,
            BodyModel::RawWrapped(t) => t,
        }
    }
}

impl View for NormalizedBody {
    type V = BodyModel;

    open spec fn view(&self) -> BodyModel {
        match self {
            NormalizedBody::Json(t) => BodyModel::Json(t@),
            NormalizedBody::RawWrapped(t) => BodyModel::RawWrapped(t@),
        }
    }
}

impl NormalizedBody {
    /// Whether the body is the raw wrapper rather than parsed JSON.
    pub fn is_raw_wrapped(&self) -> (r: bool)
        ensures
            r == (self@ matches BodyModel::RawWrapped(_)),
    {
        match self {
            NormalizedBody::Json(_) => false,
            NormalizedBody::RawWrapped(_) => true,
        }
    }

    /// The server's original response text.
    pub fn text(&self) -> (r: &String)
        ensures
            r@ == self@.text(),
    {
        match self {
            NormalizedBody::Json(t) => t,
            NormalizedBody::RawWrapped(t) => t,
        }
    }
}

/// The normalized response envelope: the remote status code and the
/// normalized body.
#[derive(Clone, Debug, PartialEq, Eq)]
pub struct ResponsePayload {
    pub status: u16,
    pub body: NormalizedBody,
}

/// Mathematical model of a response payload.
#[verifier::ext_equal]
pub ghost struct ResponseModel {
    pub status: u16,
    pub body: BodyModel,
}

impl View for ResponsePayload {
    type V = ResponseModel;

    open spec fn view(&self) -> ResponseModel {
        ResponseModel { status: self.status, body: self.body@ }
    }
}

} // verus!
