use reqwest::header::{HeaderMap, HeaderValue};
use vstd::prelude::*;

verus! {

#[verifier::external_type_specification]
#[verifier::external_body]
#[verifier::reject_recursive_types(T)]
pub struct ExHeaderMap<T>(HeaderMap<T>);

#[verifier::external_type_specification]
#[verifier::external_body]
pub struct ExHeaderValue(HeaderValue);

/// What a header map holds: for each header name, in lower case, the bytes
/// of its values in the order they were added.
pub uninterp spec fn header_values(m: HeaderMap) -> Map<Seq<char>, Seq<Seq<u8>>>;

/// The bytes of a header value.
pub uninterp spec fn value_bytes(v: HeaderValue) -> Seq<u8>;

pub open spec fn lower_char(c: char) -> char {
    if 'A' <= c <= 'Z' {
        ((c as u32 + 32) as u8) as char
    } else {
        c
    }
}

/// A header name in the lower-case form under which a map keeps it.
pub open spec fn lowercase(s: Seq<char>) -> Seq<char> {
    s.map_values(|c: char| lower_char(c))
}

/// A header name made of ASCII letters, digits and dashes, short enough
/// to be lower-cased in place.
pub open spec fn plain_header_name(s: Seq<char>) -> bool {
    &&& 1 <= s.len() <= 64
    &&& forall|i: int|
        0 <= i < s.len() ==> ('a' <= #[trigger] s[i] <= 'z') || ('A' <= s[i] <= 'Z') || ('0' <= s[i]
            <= '9') || s[i] == '-'
}

/// Bytes a header value may hold and still be read as text.
pub open spec fn visible_bytes(b: Seq<u8>) -> bool {
    forall|i: int| 0 <= i < b.len() ==> #[trigger] b[i] == 9 || (32 <= b[i] && b[i] < 127)
}

/// ASCII text as bytes.
pub open spec fn text_bytes(s: Seq<char>) -> Seq<u8> {
    s.map_values(|c: char| c as u8)
}

/// ASCII bytes as text.
pub open spec fn ascii_text(b: Seq<u8>) -> Seq<char> {
    b.map_values(|x: u8| x as char)
}

/// The contents of an empty header map.
pub open spec fn no_headers() -> Map<Seq<char>, Seq<Seq<u8>>> {
    Map::empty()
}

/// The first value under `name`, if the map has one.
pub open spec fn first_value(h: Map<Seq<char>, Seq<Seq<u8>>>, name: Seq<char>) -> Option<Seq<u8>> {
    let k = lowercase(name);
    if h.contains_key(k) && h[k].len() > 0 {
        Some(h[k][0])
    } else {
        None
    }
}

/// Relies on `HeaderMap::new`: the map is empty.
#[verifier::external_body]
pub fn new_header_map() -> (r: HeaderMap)
    ensures
        header_values(r) == no_headers(),
{
    HeaderMap::new()
}

/// Relies on `HeaderMap::insert` with a `&'static str` key and on
/// `HeaderValue::from_static`: on an empty map, the lower-cased name gets the
/// one value given. `from_static` panics on other than visible ASCII and
/// tabs; `insert` into an empty map only allocates its first slots.
#[verifier::external_body]
pub fn insert_header(m: &mut HeaderMap, name: &'static str, value: &'static str)
    requires
        plain_header_name(name@),
        visible_bytes(text_bytes(value@)),
        forall|i: int| 0 <= i < value@.len() ==> (#[trigger] value@[i] as u32) < 128,
        header_values(*old(m)) == no_headers(),
    ensures
        header_values(*final(m)) == no_headers().insert(lowercase(name@), seq![text_bytes(value@)]),
{
    m.insert(name, HeaderValue::from_static(value));
}

/// Relies on `HeaderMap::get` with a `&str` key: the first value under the
/// lower-cased name.
#[verifier::external_body]
pub fn get_header<'a>(m: &'a HeaderMap, name: &str) -> (r: Option<&'a HeaderValue>)
    requires
        plain_header_name(name@),
    ensures
        match r {
            Some(v) => first_value(header_values(*m), name@) == Some(value_bytes(*v)),
            None => first_value(header_values(*m), name@) is None,
        },
{
    m.get(name)
}

/// Relies on `HeaderValue::to_str`: it succeeds exactly on visible ASCII and
/// tabs, and then reads each byte as one character.
#[verifier::external_body]
pub fn header_to_str(v: &HeaderValue) -> (r: Option<&str>)
    ensures
        r is Some <==> visible_bytes(value_bytes(*v)),
        r matches Some(s) ==> s@ == ascii_text(value_bytes(*v)),
{
    v.to_str().ok()
}

} // verus!
