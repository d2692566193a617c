//! Requests to the platform and the reading of their responses.
use vstd::prelude::*;

use crate::error::{Error, ErrorView};

verus! {

/// The platform's API host, against which relative paths are resolved.
pub open spec fn spec_api_base() -> Seq<char> {
    "https://api.twitter.com"@
}

/// Whether `p` is a prefix of `s`.
pub open spec fn spec_has_prefix(s: Seq<char>, p: Seq<char>) -> bool {
    p.len() <= s.len() && s.subrange(0, p.len() as int) == p
}

/// A path that is already an absolute URL is used as it is; any other is
/// appended to the API host.
pub open spec fn spec_resolve(path: Seq<char>) -> Seq<char> {
    if spec_has_prefix(path, "http"@) {
        path
    } else {
        spec_api_base() + path
    }
}

/// Whether an HTTP status is in the success range.
pub open spec fn spec_success(status: u16) -> bool {
    200 <= status <= 299
}

/// The text of a byte sequence read as UTF-8, invalid sequences replaced.
pub uninterp spec fn utf8_lossy_of(bytes: Seq<u8>) -> Seq<char>;

/// The decimal digits of a number, without sign or leading zeros.
pub open spec fn spec_decimal(n: nat) -> Seq<char>
    decreases n,
{
    if n < 10 {
        seq!["0123456789"@[n as int]]
    } else {
        spec_decimal(n / 10).push("0123456789"@[(n % 10) as int])
    }
}

/// The text of an optional string.
pub open spec fn spec_opt_text(o: Option<String>) -> Option<Seq<char>> {
    match o {
        Some(s) => Some(s@),
        None => None,
    }
}

/// The HTTP method of a request.
#[derive(Clone, Copy, Debug, PartialEq, Eq, Structural)]
pub enum Method {
    Get,
    Post,
}

/// What the caller must decode a successful response's body as.
#[derive(Clone, Copy, Debug, PartialEq, Eq, Structural)]
pub enum Expect {
    /// Nothing: only the status counts.
    Status,
    /// The authenticated user, in an envelope.
    Me,
    /// The user's posts, in an envelope whose data may be null.
    Timeline,
    /// The media handle of the upload protocol.
    InitMedia,
    /// The created post, in an envelope.
    Tweet,
}

/// The body of a request.
#[derive(Debug)]
pub enum Body {
    Empty,
    /// A JSON document, sent as `application/json`.
    Json(String),
    /// A multipart form with one file field `media`.
    Media { file_name: String, bytes: Vec<u8> },
}

pub enum BodyView {
    Empty,
    Json(Seq<char>),
    Media { file_name: Seq<char>, bytes: Seq<u8> },
}

impl View for Body {
    type V = BodyView;

    open spec fn view(&self) -> BodyView {
        match self {
            Body::Empty => BodyView::Empty,
            Body::Json(s) => BodyView::Json(s@),
            Body::Media { file_name, bytes } => BodyView::Media {
                file_name: file_name@,
                bytes: bytes@,
            },
        }
    }
}

/// A signed request to the platform, as the caller is to send it.
#[derive(Debug)]
pub struct ApiRequest {
    pub method: Method,
    pub url: String,
    pub query: Vec<(String, String)>,
    pub body: Body,
    pub expect: Expect,
}

pub struct ApiRequestView {
    pub method: Method,
    pub url: Seq<char>,
    pub query: Seq<(Seq<char>, Seq<char>)>,
    pub body: BodyView,
    pub expect: Expect,
}

/// The texts of a list of query pairs.
pub open spec fn spec_pairs(q: Seq<(String, String)>) -> Seq<(Seq<char>, Seq<char>)> {
    q.map_values(|p: (String, String)| (p.0@, p.1@))
}

impl View for ApiRequest {
    type V = ApiRequestView;

    open spec fn view(&self) -> ApiRequestView {
        ApiRequestView {
            method: self.method,
            url: self.url@,
            query: spec_pairs(self.query@),
            body: self.body@,
            expect: self.expect,
        }
    }
}

/// Whether `s` starts with `p`.
pub fn has_prefix(s: &str, p: &str) -> (r: bool)
    ensures
        r == spec_has_prefix(s@, p@),
{
    let n = p.unicode_len();
    let m = s.unicode_len();
    if n > m {
        return false;
    }
    let mut i: usize = 0;
    while i < n
        invariant
            n == p@.len(),
            m == s@.len(),
            n <= m,
            i <= n,
            forall|j: int| 0 <= j < i ==> s@[j] == p@[j],
        decreases n - i,
    {
        if s.get_char(i) != p.get_char(i) {
            assert(s@.subrange(0, n as int)[i as int] != p@[i as int]);
            return false;
        }
        i += 1;
    }
    assert(s@.subrange(0, n as int) =~= p@);
    true
}

/// The URL a request path stands for.
pub fn resolve_url(path: &str) -> (r: String)
    ensures
        r@ == spec_resolve(path@),
{
    if has_prefix(path, "http") {
        String::from_str(path)
    } else {
        String::from_str("https://api.twitter.com").concat(path)
    }
}

/// Whether an HTTP status is in the success range.
pub fn is_success(status: u16) -> (r: bool)
    ensures
        r == spec_success(status),
{
    200 <= status && status <= 299
}

/// Relies on String::from_utf8_lossy: the body's text, with each invalid
/// UTF-8 sequence replaced; the result depends on the bytes alone.
#[verifier::external_body]
pub(crate) fn lossy_text(bytes: &[u8]) -> (r: String)
    ensures
        r@ == utf8_lossy_of(bytes@),
{
    String::from_utf8_lossy(bytes).into_owned()
}

/// Relies on u64's ToString: the decimal digits of the number.
#[verifier::external_body]
pub(crate) fn decimal(n: u64) -> (r: String)
    ensures
        r@ == spec_decimal(n as nat),
{
    n.to_string()
}

/// The outcome of a response, given its status, its raw body and what the
/// body decoded to (`None` where it did not decode).
pub open spec fn spec_response<T>(status: u16, body: Seq<u8>, decoded: Option<T>) -> Result<
    T,
    ErrorView,
> {
    if !spec_success(status) {
        Err(ErrorView::Api { status, body: utf8_lossy_of(body) })
    } else {
        match decoded {
            Some(v) => Ok(v),
            None => Err(ErrorView::Decode { raw_body: utf8_lossy_of(body) }),
        }
    }
}

/// Reads a response: a status outside the success range is an `Api` error
/// with the body's text, a body that did not decode is a `Decode` error with
/// the body's text, and otherwise the decoded value is the result.
pub fn read_response<T>(status: u16, body: &[u8], decoded: Option<T>) -> (r: Result<T, Error>)
    ensures
        match (r, spec_response(status, body@, decoded)) {
            (Ok(v), Ok(w)) => v == w,
            (Err(e), Err(f)) => e@ == f,
            _ => false,
        },
{
    if !is_success(status) {
        Err(Error::Api { status, body: lossy_text(body) })
    } else {
        match decoded {
            Some(v) => Ok(v),
            None => Err(Error::Decode { raw_body: lossy_text(body) }),
        }
    }
}

} // verus!
