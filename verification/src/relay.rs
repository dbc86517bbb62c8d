use vstd::prelude::*;
use vstd::string::StringExecFns;

verus! {

/// Upstream response as handed back by the transport after a successful
/// dispatch. The body is carried as an opaque handle of the transport's
/// choosing, so a streamed body is passed through without buffering.
pub struct UpstreamResponse<B> {
    /// Upstream status code.
    pub status: u16,
    /// Upstream header multimap in arrival order, duplicate names
    /// preserved; a value is kept as raw bytes.
    pub headers: Vec<(String, Vec<u8>)>,
    /// Upstream body handle.
    pub body: B,
}

/// Transport-level failure of the single outbound attempt: connection
/// refused, name resolution, TLS handshake, or I/O mid-request. The cause
/// is carried as text for the operator's log only; every cause is relayed
/// the same way.
pub struct TransportError {
    /// Description of the underlying failure.
    pub cause: String,
}

/// Body of a relayed response: either the upstream body handle, passed
/// through untouched, or synthetic text of the library's own.
pub enum ResponseBody<B> {
    Upstream(B),
    Text(String),
}

/// Response returned to the original caller. A response is always
/// produced: either the upstream's own status, headers and body, or the
/// synthetic upstream-unavailable response.
pub struct ProxyResponse<B> {
    /// Status code returned to the caller.
    pub status: u16,
    /// Header multimap returned to the caller.
    pub headers: Vec<(String, Vec<u8>)>,
    /// Body returned to the caller.
    pub body: ResponseBody<B>,
}

/// Status of the synthetic response sent when the upstream is unreachable.
pub const UNAVAILABLE_STATUS: u16 = 503;

/// The fixed text body of the synthetic upstream-unavailable response.
pub open spec fn unavailable_text() -> Seq<char> {
    "proxy server unavailable"@
}

/// Relays the outcome of the single outbound attempt. On success the
/// upstream status, headers and body are copied verbatim: no header is
/// added, removed or renamed, and the body handle is passed through
/// untouched. On any transport failure, whatever its cause, the response
/// is status 503 with the fixed text body and no headers.
pub fn relay<B>(outcome: Result<UpstreamResponse<B>, TransportError>) -> (r: ProxyResponse<B>)
    ensures
        outcome matches Ok(u) ==> {
            &&& r.status == u.status
            &&& r.headers == u.headers
            &&& r.body == ResponseBody::Upstream(u.body)
        },
        outcome is Err ==> {
            &&& r.status == UNAVAILABLE_STATUS
            &&& r.headers@ == Seq::<(String, Vec<u8>)>::empty()
            &&& r.body matches ResponseBody::Text(t) && t@ == unavailable_text()
        },
{
    match outcome {
        Ok(u) => ProxyResponse {
            status: u.status,
            headers: u.headers,
            body: ResponseBody::Upstream(u.body),
        },
        Err(_) => ProxyResponse {
            status: UNAVAILABLE_STATUS,
            headers: Vec::new(),
            body: ResponseBody::Text(String::from_str("proxy server unavailable")),
        },
    }
}

} // verus!
