use vstd::prelude::*;

verus! {

/// One header entry as raw bytes: a name and a value.
pub struct Header {
    pub name: Vec<u8>,
    pub value: Vec<u8>,
}

impl View for Header {
    type V = (Seq<u8>, Seq<u8>);

    open spec fn view(&self) -> (Seq<u8>, Seq<u8>) {
        (self.name@, self.value@)
    }
}

/// The header entries of `hs` as byte sequences.
pub open spec fn headers_view(hs: Seq<Header>) -> Seq<(Seq<u8>, Seq<u8>)> {
    hs.map_values(|h: Header| h@)
}

/// A token character of a header name: a digit, a letter (upper case is
/// accepted and normalised) or one of `! # $ % & ' * + - . ^ _ ` | ~`.
pub open spec fn header_name_byte_ok(b: u8) -> bool {
    (48 <= b <= 57) || (65 <= b <= 90) || (97 <= b <= 122) || b == 33 || (35 <= b <= 39) || b
        == 42 || b == 43 || b == 45 || b == 46 || (94 <= b <= 96) || b == 124 || b == 126
}

/// Whether `name` can be a header name: 1 to 65535 token characters.
pub open spec fn header_name_accepts(name: Seq<u8>) -> bool {
    1 <= name.len() <= 65535 && forall|i: int|
        0 <= i < name.len() ==> header_name_byte_ok(#[trigger] name[i])
}

/// A byte that may stand in a header value: visible ASCII, obs-text or tab.
pub open spec fn header_value_byte_ok(b: u8) -> bool {
    (b >= 32 && b != 127) || b == 9
}

/// Whether every byte of `value` may stand in a header value.
pub open spec fn header_value_accepts(value: Seq<u8>) -> bool {
    forall|i: int| 0 <= i < value.len() ==> header_value_byte_ok(#[trigger] value[i])
}

/// Whether a header entry can be represented on the outbound request.
pub open spec fn header_ok(h: (Seq<u8>, Seq<u8>)) -> bool {
    header_name_accepts(h.0) && header_value_accepts(h.1)
}

/// The outbound header list: the inbound entries that can be represented, in order.
pub open spec fn translated(hs: Seq<(Seq<u8>, Seq<u8>)>) -> Seq<(Seq<u8>, Seq<u8>)>
    decreases hs.len(),
{
    if hs.len() == 0 {
        seq![]
    } else {
        let rest = translated(hs.drop_last());
        if header_ok(hs.last()) {
            rest.push(hs.last())
        } else {
            rest
        }
    }
}

/// Every entry of a translated header list can be represented.
pub proof fn lemma_translated_all_ok(hs: Seq<(Seq<u8>, Seq<u8>)>)
    ensures
        forall|i: int| 0 <= i < translated(hs).len() ==> header_ok(#[trigger] translated(hs)[i]),
    decreases hs.len(),
{
    if hs.len() > 0 {
        let rest = translated(hs.drop_last());
        lemma_translated_all_ok(hs.drop_last());
        if header_ok(hs.last()) {
            assert forall|i: int| 0 <= i < translated(hs).len() implies header_ok(
                #[trigger] translated(hs)[i],
            ) by {
                if i < rest.len() {
                    assert(translated(hs)[i] == rest[i]);
                }
            }
        }
    }
}

/// A header list whose entries can all be represented translates to itself.
pub proof fn lemma_translated_keeps_valid(hs: Seq<(Seq<u8>, Seq<u8>)>)
    requires
        forall|i: int| 0 <= i < hs.len() ==> header_ok(#[trigger] hs[i]),
    ensures
        translated(hs) == hs,
    decreases hs.len(),
{
    if hs.len() > 0 {
        let rest = hs.drop_last();
        assert forall|i: int| 0 <= i < rest.len() implies header_ok(#[trigger] rest[i]) by {
            assert(rest[i] == hs[i]);
        }
        lemma_translated_keeps_valid(rest);
        assert(header_ok(hs[hs.len() - 1]));
        assert(rest.push(hs.last()) =~= hs);
    }
}

/// Translating a header list twice gives the same outbound list as once.
pub proof fn lemma_translate_idempotent(hs: Seq<(Seq<u8>, Seq<u8>)>)
    ensures
        translated(translated(hs)) == translated(hs),
{
    lemma_translated_all_ok(hs);
    lemma_translated_keeps_valid(translated(hs));
}

/// Relies on reqwest's `HeaderName::from_bytes` (from the http crate): it accepts
/// exactly the non-empty names of at most 65535 bytes, each of them a token
/// character.
#[verifier::external_body]
fn header_name_valid(name: &Vec<u8>) -> (r: bool)
    ensures
        r == header_name_accepts(name@),
{
    reqwest::header::HeaderName::from_bytes(name.as_slice()).is_ok()
}

/// Whether every byte of `value` may stand in a header value, checked byte by
/// byte as the HTTP library does.
pub fn header_value_valid(value: &Vec<u8>) -> (r: bool)
    ensures
        r == header_value_accepts(value@),
{
    let mut i: usize = 0;
    while i < value.len()
        invariant
            i <= value@.len(),
            forall|j: int| 0 <= j < i ==> header_value_byte_ok(#[trigger] value@[j]),
        decreases value@.len() - i,
    {
        let b = value[i];
        if !((b >= 32 && b != 127) || b == 9) {
            return false;
        }
        i = i + 1;
    }
    true
}

fn copy_bytes(v: &Vec<u8>) -> (r: Vec<u8>)
    ensures
        r@ == v@,
{
    let mut r: Vec<u8> = Vec::new();
    let mut i: usize = 0;
    while i < v.len()
        invariant
            i <= v@.len(),
            r@ == v@.take(i as int),
        decreases v@.len() - i,
    {
        r.push(v[i]);
        i = i + 1;
        proof {
            assert(v@.take(i as int) =~= v@.take(i - 1).push(v@[i - 1]));
        }
    }
    proof {
        assert(v@.take(i as int) =~= v@);
    }
    r
}

/// Copies the inbound headers for the outbound request, dropping each entry
/// whose name or value cannot be represented.
pub fn convert_headers(headers: &Vec<Header>) -> (r: Vec<Header>)
    ensures
        headers_view(r@) == translated(headers_view(headers@)),
{
    let mut out: Vec<Header> = Vec::new();
    let mut i: usize = 0;
    while i < headers.len()
        invariant
            i <= headers@.len(),
            headers_view(out@) == translated(headers_view(headers@).take(i as int)),
        decreases headers@.len() - i,
    {
        let h = &headers[i];
        let ok = header_name_valid(&h.name) && header_value_valid(&h.value);
        proof {
            let hv = headers_view(headers@);
            assert(hv.take(i + 1).drop_last() =~= hv.take(i as int));
            assert(hv.take(i + 1).last() == h@);
        }
        if ok {
            let copy = Header { name: copy_bytes(&h.name), value: copy_bytes(&h.value) };
            let ghost before = out@;
            out.push(copy);
            proof {
                assert(headers_view(out@) =~= headers_view(before).push(copy@));
            }
        }
        i = i + 1;
    }
    proof {
        assert(headers_view(headers@).take(i as int) =~= headers_view(headers@));
    }
    out
}

/// Request methods of HTTP.
pub enum Method {
    Get,
    Post,
    Put,
    Delete,
    Head,
    Options,
    Patch,
    Connect,
    Trace,
    Other,
}

/// The methods that the relay forwards.
pub enum RelayMethod {
    Get,
    Post,
    Put,
    Delete,
    Head,
}

/// Whether the relay forwards requests of method `m`.
pub open spec fn is_supported(m: Method) -> bool {
    m is Get || m is Post || m is Put || m is Delete || m is Head
}

/// The outbound method that stands for inbound method `m`.
pub open spec fn relay_method_of(m: Method) -> RelayMethod {
    match m {
        Method::Get => RelayMethod::Get,
        Method::Post => RelayMethod::Post,
        Method::Put => RelayMethod::Put,
        Method::Delete => RelayMethod::Delete,
        _ => RelayMethod::Head,
    }
}

/// Maps a supported inbound method to the same outbound method; any other
/// method is outside the relay's contract.
pub fn convert_method(method: &Method) -> (r: RelayMethod)
    requires
        is_supported(*method),
    ensures
        r == relay_method_of(*method),
{
    match method {
        Method::Get => RelayMethod::Get,
        Method::Post => RelayMethod::Post,
        Method::Put => RelayMethod::Put,
        Method::Delete => RelayMethod::Delete,
        _ => RelayMethod::Head,
    }
}

/// The request that the relay sends upstream.
pub struct OutboundRequest {
    pub method: RelayMethod,
    pub url: String,
    pub headers: Vec<Header>,
    pub body: Vec<u8>,
}

/// Builds the upstream request for an inbound one: same method, the fixed
/// upstream URL, the translated headers and the body byte for byte.
pub fn outbound_request(method: &Method, url: &String, headers: &Vec<Header>, body: Vec<u8>) -> (r:
    OutboundRequest)
    requires
        is_supported(*method),
    ensures
        r.method == relay_method_of(*method),
        r.url@ == url@,
        headers_view(r.headers@) == translated(headers_view(headers@)),
        r.body@ == body@,
{
    OutboundRequest {
        method: convert_method(method),
        url: url.clone(),
        headers: convert_headers(headers),
        body,
    }
}

/// What came of sending a request upstream.
pub enum UpstreamOutcome {
    /// The upstream answered with this status and body text.
    Replied { status: u16, body: String },
    /// The inbound body could not be read.
    BodyReadFailed,
    /// The request could not be sent or got no answer.
    SendFailed,
    /// The answer's body could not be read as text.
    ReplyUnreadable,
}

/// The relay could not reach the upstream or read its answer.
pub enum GatewayError {
    BadGateway,
}

impl GatewayError {
    /// The HTTP status that reports this error.
    pub fn status(&self) -> (r: u16)
        ensures
            r == 502,
    {
        502
    }
}

/// The relay's reply for an upstream outcome: an answer passes through as it
/// is, whatever its status; every transport failure is a bad gateway.
pub fn relay_reply(outcome: UpstreamOutcome) -> (r: Result<(u16, String), GatewayError>)
    ensures
        match outcome {
            UpstreamOutcome::Replied { status, body } => r matches Ok((s, b)) && s == status && b@
                == body@,
            _ => r is Err,
        },
{
    match outcome {
        UpstreamOutcome::Replied { status, body } => Ok((status, body)),
        _ => Err(GatewayError::BadGateway),
    }
}

} // verus!
