use vstd::prelude::*;

use reqwest::header::HeaderMap;

use crate::error::{is_success, is_success_status, AppError, GENERIC_ERROR_MESSAGE};
use crate::headers::{
    ascii_text, first_value, get_header, header_to_str, header_values, insert_header, lowercase,
    new_header_map, no_headers, plain_header_name, text_bytes, visible_bytes,
};

verus! {

/// Name of the header that selects the body encoding.
pub const CONTENT_TYPE: &'static str = "Content-type";

/// Content type assumed when a request declares no headers.
pub const JSON_CONTENT_TYPE: &'static str = "application/json";

/// HTTP method of a request.
#[derive(Debug, Clone, Copy, PartialEq, Eq, Structural)]
pub enum Method {
    Get,
    Post,
    Put,
    Patch,
    Delete,
    Head,
    Options,
}

/// How a request body is put on the wire.
#[derive(Debug, Clone, Copy, PartialEq, Eq, Structural)]
pub enum BodyEncoding {
    /// JSON document.
    Json,
    /// `application/x-www-form-urlencoded` pairs.
    Form,
    /// No encoding: the body is not attached.
    Raw,
}

pub open spec fn occurs_at(s: Seq<char>, p: Seq<char>, i: int) -> bool {
    &&& 0 <= i
    &&& i + p.len() <= s.len()
    &&& forall|j: int| 0 <= j < p.len() ==> s[i + j] == #[trigger] p[j]
}

/// `p` is a contiguous part of `s`.
pub open spec fn contains(s: Seq<char>, p: Seq<char>) -> bool {
    exists|i: int| occurs_at(s, p, i)
}

/// Encoding chosen from the headers of a request: none declared or a JSON
/// type gives JSON, a type containing "form-data" gives form pairs, any
/// other type gives no encoding. `None` stands for an unreadable type.
pub open spec fn body_encoding_for(h: Map<Seq<char>, Seq<Seq<u8>>>) -> Option<BodyEncoding> {
    match first_value(h, CONTENT_TYPE@) {
        None => Some(BodyEncoding::Json),
        Some(b) => if !visible_bytes(b) {
            None
        } else if contains(ascii_text(b), "json"@) {
            Some(BodyEncoding::Json)
        } else if contains(ascii_text(b), "form-data"@) {
            Some(BodyEncoding::Form)
        } else {
            Some(BodyEncoding::Raw)
        },
    }
}

/// The headers that a request without headers is given: JSON declared.
pub open spec fn default_headers() -> Map<Seq<char>, Seq<Seq<u8>>> {
    no_headers().insert(lowercase(CONTENT_TYPE@), seq![text_bytes(JSON_CONTENT_TYPE@)])
}

/// Whether `p` occurs in `s`.
pub fn contains_text(s: &str, p: &str) -> (r: bool)
    ensures
        r == contains(s@, p@),
{
    let n = s.unicode_len();
    let m = p.unicode_len();
    if m > n {
        assert forall|i: int| !occurs_at(s@, p@, i) by {}
        return false;
    }
    let mut i: usize = 0;
    while i <= n - m
        invariant
            n == s@.len(),
            m == p@.len(),
            m <= n,
            i <= n - m + 1,
            forall|k: int| 0 <= k < i ==> !occurs_at(s@, p@, k),
        decreases n - m + 1 - i,
    {
        let mut j: usize = 0;
        let mut same = true;
        while j < m
            invariant
                n == s@.len(),
                m == p@.len(),
                i + m <= n,
                j <= m,
                same == forall|t: int| 0 <= t < j ==> s@[i + t] == #[trigger] p@[t],
            decreases m - j,
        {
            if s.get_char(i + j) != p.get_char(j) {
                same = false;
            }
            j = j + 1;
        }
        if same {
            assert(occurs_at(s@, p@, i as int));
            return true;
        }
        i = i + 1;
    }
    assert forall|k: int| !occurs_at(s@, p@, k) by {
        if 0 <= k && k < i {
        }
    }
    false
}

/// Headers after defaulting: a request without headers gets one that
/// declares JSON, any other keeps its own.
pub open spec fn with_default_headers(before: Option<HeaderMap>, after: Option<HeaderMap>) -> bool {
    match before {
        None => after is Some && header_values(after->Some_0) == default_headers(),
        Some(_) => after == before,
    }
}

/// `r` is what the encoding selection owes for the headers `h`.
pub open spec fn encoding_result(h: Option<HeaderMap>, r: Result<BodyEncoding, AppError>) -> bool {
    match body_encoding_for(header_values(h->Some_0)) {
        Some(enc) => r == Ok::<BodyEncoding, AppError>(enc),
        None => r matches Err(AppError::Other(m)) && m@ == GENERIC_ERROR_MESSAGE@,
    }
}

proof fn lemma_constant_headers()
    ensures
        plain_header_name(CONTENT_TYPE@),
        visible_bytes(text_bytes(JSON_CONTENT_TYPE@)),
        forall|i: int|
            0 <= i < JSON_CONTENT_TYPE@.len() ==> (#[trigger] JSON_CONTENT_TYPE@[i] as u32) < 128,
        ascii_text(text_bytes(JSON_CONTENT_TYPE@)) == JSON_CONTENT_TYPE@,
{
    reveal_strlit("Content-type");
    reveal_strlit("application/json");
    assert(ascii_text(text_bytes(JSON_CONTENT_TYPE@)) =~= JSON_CONTENT_TYPE@);
}

/// Picks the body encoding of a request from its `Content-type` header. A
/// request without headers gets one declaring JSON first.
pub fn select_body_encoding(headers: &mut Option<HeaderMap>) -> (r: Result<BodyEncoding, AppError>)
    ensures
        with_default_headers(*old(headers), *final(headers)),
        *final(headers) is Some,
        encoding_result(*final(headers), r),
{
    if headers.is_none() {
        let mut defaults = new_header_map();
        proof {
            lemma_constant_headers();
        }
        insert_header(&mut defaults, CONTENT_TYPE, JSON_CONTENT_TYPE);
        *headers = Some(defaults);
    }
    proof {
        lemma_constant_headers();
    }
    let some_headers = headers.as_ref().unwrap();
    match get_header(some_headers, CONTENT_TYPE) {
        Some(value) => match header_to_str(value) {
            None => Err(AppError::Other(String::from_str(GENERIC_ERROR_MESSAGE))),
            Some(content_type) => {
                if contains_text(content_type, "json") {
                    Ok(BodyEncoding::Json)
                } else if contains_text(content_type, "form-data") {
                    Ok(BodyEncoding::Form)
                } else {
                    Ok(BodyEncoding::Raw)
                }
            },
        },
        None => Ok(BodyEncoding::Json),
    }
}

/// A body goes out as JSON when the request declares no headers at all, or
/// no `Content-type` among them; it goes out as form pairs when the declared
/// type is readable and contains "form-data" but not "json".
pub proof fn lemma_body_encoding_selection(h: Map<Seq<char>, Seq<Seq<u8>>>)
    ensures
        body_encoding_for(default_headers()) == Some(BodyEncoding::Json),
        first_value(h, CONTENT_TYPE@) is None ==> body_encoding_for(h) == Some(BodyEncoding::Json),
        ({
            let b = first_value(h, CONTENT_TYPE@)->Some_0;
            first_value(h, CONTENT_TYPE@) is Some && visible_bytes(b) && contains(
                ascii_text(b),
                "form-data"@,
            ) && !contains(ascii_text(b), "json"@) ==> body_encoding_for(h) == Some(
                BodyEncoding::Form,
            )
        }),
{
    lemma_constant_headers();
    let d = default_headers();
    assert(first_value(d, CONTENT_TYPE@) == Some(text_bytes(JSON_CONTENT_TYPE@)));
    reveal_strlit("application/json");
    reveal_strlit("json");
    assert(occurs_at(JSON_CONTENT_TYPE@, "json"@, 12));
}

/// Characters with the Unicode `White_Space` property.
pub open spec fn is_white_space(c: char) -> bool {
    let u = c as u32;
    ||| 0x9 <= u <= 0xd
    ||| u == 0x20
    ||| u == 0x85
    ||| u == 0xa0
    ||| u == 0x1680
    ||| 0x2000 <= u <= 0x200a
    ||| u == 0x2028
    ||| u == 0x2029
    ||| u == 0x202f
    ||| u == 0x205f
    ||| u == 0x3000
}

/// `s` without its leading white space.
pub open spec fn trim_start(s: Seq<char>) -> Seq<char>
    decreases s.len(),
{
    if s.len() > 0 && is_white_space(s[0]) {
        trim_start(s.subrange(1, s.len() as int))
    } else {
        s
    }
}

/// `s` without its trailing white space.
pub open spec fn trim_end(s: Seq<char>) -> Seq<char>
    decreases s.len(),
{
    if s.len() > 0 && is_white_space(s[s.len() - 1]) {
        trim_end(s.subrange(0, s.len() - 1))
    } else {
        s
    }
}

/// Text with leading and trailing white space removed.
pub open spec fn trimmed(s: Seq<char>) -> Seq<char> {
    trim_end(trim_start(s))
}

fn is_white_space_exec(c: char) -> (r: bool)
    ensures
        r == is_white_space(c),
{
    let u = c as u32;
    (0x9 <= u && u <= 0xd) || u == 0x20 || u == 0x85 || u == 0xa0 || u == 0x1680 || (0x2000 <= u
        && u <= 0x200a) || u == 0x2028 || u == 0x2029 || u == 0x202f || u == 0x205f || u == 0x3000
}

/// `s` with leading and trailing white space removed.
pub fn trim_text(s: &str) -> (r: String)
    ensures
        r@ == trimmed(s@),
{
    let n = s.unicode_len();
    let mut i: usize = 0;
    assert(s@.subrange(0, n as int) =~= s@);
    while i < n && is_white_space_exec(s.get_char(i))
        invariant
            n == s@.len(),
            i <= n,
            trim_start(s@) == trim_start(s@.subrange(i as int, n as int)),
        decreases n - i,
    {
        let ghost rest = s@.subrange(i as int, n as int);
        assert(rest.subrange(1, rest.len() as int) =~= s@.subrange(i + 1, n as int));
        i = i + 1;
    }
    assert(trim_start(s@.subrange(i as int, n as int)) == s@.subrange(i as int, n as int));
    let mut j: usize = n;
    while j > i && is_white_space_exec(s.get_char(j - 1))
        invariant
            n == s@.len(),
            i <= j <= n,
            trimmed(s@) == trim_end(s@.subrange(i as int, j as int)),
        decreases j - i,
    {
        let ghost part = s@.subrange(i as int, j as int);
        assert(part.subrange(0, part.len() - 1) =~= s@.subrange(i as int, j - 1));
        j = j - 1;
    }
    let r = s.substring_char(i, j).to_owned();
    assert(trim_end(s@.subrange(i as int, j as int)) == s@.subrange(i as int, j as int));
    r
}

/// One HTTP call: where it goes, how, with which credential and body.
pub struct FetchOptions<T> {
    pub host: String,
    pub path: String,
    pub method: Method,
    pub headers: Option<HeaderMap>,
    pub authorization: Option<String>,
    pub data: Option<T>,
}

impl<T> FetchOptions<T> {
    pub fn new(
        host: String,
        path: String,
        method: Method,
        headers: Option<HeaderMap>,
        authorization: Option<String>,
        data: Option<T>,
    ) -> (r: FetchOptions<T>)
        ensures
            r.host == host,
            r.path == path,
            r.method == method,
            r.headers == headers,
            r.authorization == authorization,
            r.data == data,
    {
        FetchOptions { host, path, method, headers, authorization, data }
    }
}

/// What the transport needs to send a request: the full URL, the method,
/// the bearer token to attach, and how to encode the body when there is one.
pub struct RequestPlan {
    pub url: String,
    pub method: Method,
    pub bearer: Option<String>,
    pub body_encoding: Option<BodyEncoding>,
}

/// URL of `path` on `host`: the two texts, one after the other.
pub fn join_url(host: &str, path: &str) -> (r: String)
    ensures
        r@ == host@ + path@,
{
    let mut url = host.to_owned();
    url.append(path);
    url
}

/// The full URL of a request: its trimmed host followed by its trimmed path.
pub open spec fn request_url<T>(o: FetchOptions<T>) -> Seq<char> {
    trimmed(o.host@) + trimmed(o.path@)
}

/// Prepares a request. Only a request with a body consults, and possibly
/// defaults, its headers; the rest of the options is left as it was.
pub fn prepare_fetch<T>(options: &mut FetchOptions<T>) -> (r: Result<RequestPlan, AppError>)
    ensures
        final(options).host == old(options).host,
        final(options).path == old(options).path,
        final(options).method == old(options).method,
        final(options).authorization == old(options).authorization,
        final(options).data == old(options).data,
        old(options).data is None ==> final(options).headers == old(options).headers,
        old(options).data is Some ==> with_default_headers(
            old(options).headers,
            final(options).headers,
        ),
        r is Ok <==> (old(options).data is None || body_encoding_for(
            header_values(final(options).headers->Some_0),
        ) is Some),
        match r {
            Ok(p) => {
                &&& p.url@ == request_url(*old(options))
                &&& p.method == old(options).method
                &&& p.bearer == old(options).authorization
                &&& (old(options).data is None ==> p.body_encoding is None)
                &&& (old(options).data is Some ==> p.body_encoding == body_encoding_for(
                    header_values(final(options).headers->Some_0),
                ))
            },
            Err(e) => old(options).data is Some && encoding_result(
                final(options).headers,
                Err(e),
            ),
        },
{
    let host = trim_text(options.host.as_str());
    let path = trim_text(options.path.as_str());
    let url = join_url(host.as_str(), path.as_str());
    let bearer = match &options.authorization {
        Some(token) => Some(token.clone()),
        None => None,
    };
    let body_encoding = if options.data.is_some() {
        match select_body_encoding(&mut options.headers) {
            Ok(enc) => Some(enc),
            Err(e) => {
                return Err(e);
            },
        }
    } else {
        None
    };
    Ok(RequestPlan { url, method: options.method, bearer, body_encoding })
}

/// Outcome of a response by its status: success passes, 401 is an
/// authorization error, any other status a network error.
pub open spec fn status_outcome(status: u16) -> Result<(), AppError> {
    if is_success_status(status as int) {
        Ok(())
    } else if status == 401 {
        Err(AppError::AuthorizationError(None))
    } else {
        Err(AppError::NetworkError(None))
    }
}

pub fn check_status(status: u16) -> (r: Result<(), AppError>)
    ensures
        r == status_outcome(status),
{
    if is_success(status) {
        Ok(())
    } else if status == 401 {
        Err(AppError::AuthorizationError(None))
    } else {
        Err(AppError::NetworkError(None))
    }
}

} // verus!
