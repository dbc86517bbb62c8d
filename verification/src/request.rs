use vstd::prelude::*;
use vstd::string::StringExecFns;

verus! {

/// Inbound request captured into plain values. Each handling task owns
/// exactly one capture until its response has been produced; nothing in it
/// is shared across requests.
pub struct OriginalRequest {
    /// HTTP method token, e.g. `GET`.
    pub method: String,
    /// Full request path, e.g. `/search`.
    pub path: String,
    /// Raw, undecoded query string without the leading `?`; may be empty.
    pub query: String,
    /// Header multimap in arrival order, duplicate names preserved; a
    /// value is kept as raw bytes.
    pub headers: Vec<(String, Vec<u8>)>,
    /// Fully buffered request body; may be empty.
    pub body: Vec<u8>,
}

/// Outbound request derived from one capture and the target base: same
/// method, same headers, same body, location composed from the target.
pub struct ProxyRequest {
    /// Same method token as the capture it was built from.
    pub method: String,
    /// Outbound location: target base, then path, then the query suffix.
    pub location: String,
    /// The capture's headers, copied verbatim.
    pub headers: Vec<(String, Vec<u8>)>,
    /// The capture's body, copied verbatim.
    pub body: Vec<u8>,
}

/// Error of one request whose composed location is not a well-formed URI;
/// it never touches any other request.
#[derive(Debug, PartialEq, Eq, Structural)]
pub enum ProxyError {
    InvalidTargetUri,
}

/// What a non-empty raw query contributes to the outbound location: `?`
/// followed by the query; an empty query contributes nothing.
pub open spec fn query_suffix(q: Seq<char>) -> Seq<char> {
    if q.len() == 0 {
        Seq::empty()
    } else {
        "?"@ + q
    }
}

/// The outbound location composed for a capture: target base, then path,
/// then the query suffix.
pub open spec fn location_of(target: Seq<char>, path: Seq<char>, query: Seq<char>) -> Seq<char> {
    target + path + query_suffix(query)
}

/// Whether hyper's URI parser accepts the text; a function of the text
/// alone.
pub uninterp spec fn uri_parses(s: Seq<char>) -> bool;

/// Relies on the `FromStr` impl of `warp::hyper::Uri`: whether the composed
/// location is a well-formed URI is exactly what that parser decides.
#[verifier::external_body]
fn location_parses(s: &str) -> (r: bool)
    ensures
        r == uri_parses(s@),
{
    s.parse::<warp::hyper::Uri>().is_ok()
}

/// Renders the query suffix: the empty string for an empty raw query, `?`
/// followed by the raw query otherwise.
pub fn query_string_of(raw_query: &str) -> (r: String)
    ensures
        r@ == query_suffix(raw_query@),
{
    if raw_query.is_empty() {
        String::new()
    } else {
        let r = String::from_str("?").concat(raw_query);
        proof {
            assert(r@ =~= query_suffix(raw_query@));
        }
        r
    }
}

/// Composes and validates the outbound location for one capture: the
/// target base, then the path, then the query suffix, concatenated with
/// nothing else. Returns `InvalidTargetUri` exactly when the composed text
/// is not a well-formed URI; that failure is scoped to the one request.
pub fn resolve(path: &str, raw_query: &str, target_host: &str) -> (r: Result<String, ProxyError>)
    ensures
        r is Ok <==> uri_parses(location_of(target_host@, path@, raw_query@)),
        r matches Ok(location) ==> location@ == location_of(target_host@, path@, raw_query@),
        r matches Err(e) ==> e == ProxyError::InvalidTargetUri,
{
    let query_string = query_string_of(raw_query);
    let location = String::from_str(target_host).concat(path).concat(query_string.as_str());
    proof {
        assert(location@ =~= location_of(target_host@, path@, raw_query@));
    }
    if location_parses(location.as_str()) {
        Ok(location)
    } else {
        Err(ProxyError::InvalidTargetUri)
    }
}

impl OriginalRequest {
    /// Captures the already-extracted parts of an inbound request. Pure
    /// data assembly: every field is stored exactly as handed in.
    pub fn new(
        method: String,
        path: String,
        query: String,
        headers: Vec<(String, Vec<u8>)>,
        body: Vec<u8>,
    ) -> (r: OriginalRequest)
        ensures
            r.method == method,
            r.path == path,
            r.query == query,
            r.headers == headers,
            r.body == body,
    {
        OriginalRequest { method, path, query, headers, body }
    }

    /// The query suffix of this capture: empty for an empty raw query, `?`
    /// followed by the raw query otherwise.
    pub fn query_string(&self) -> (r: String)
        ensures
            r@ == query_suffix(self.query@),
    {
        query_string_of(self.query.as_str())
    }
}

/// Composes the outbound request for one capture. The location is the
/// target base, the captured path, and the query suffix, concatenated;
/// method, headers and body are taken over verbatim, nothing added or
/// removed. Returns `InvalidTargetUri` exactly when the composed location
/// is not a well-formed URI; that failure is scoped to this one request.
pub fn build_request(original: OriginalRequest, target_host: &str) -> (r: Result<
    ProxyRequest,
    ProxyError,
>)
    ensures
        r is Ok <==> uri_parses(location_of(target_host@, original.path@, original.query@)),
        r matches Ok(p) ==> {
            &&& p.method == original.method
            &&& p.location@ == location_of(target_host@, original.path@, original.query@)
            &&& p.headers == original.headers
            &&& p.body == original.body
        },
        r matches Err(e) ==> e == ProxyError::InvalidTargetUri,
{
    match resolve(original.path.as_str(), original.query.as_str(), target_host) {
        Ok(location) => Ok(
            ProxyRequest {
                method: original.method,
                location,
                headers: original.headers,
                body: original.body,
            },
        ),
        Err(e) => Err(e),
    }
}

/// Isolation of concurrent captures: an outbound request carries exactly
/// the body of the capture it was built from, so two requests built from
/// captures with distinct bodies can never share a body.
pub proof fn lemma_capture_isolation(
    p: ProxyRequest,
    q: ProxyRequest,
    a: OriginalRequest,
    b: OriginalRequest,
)
    requires
        p.body == a.body,
        q.body == b.body,
        a.body@ != b.body@,
    ensures
        p.body@ != q.body@,
{
}

} // verus!
