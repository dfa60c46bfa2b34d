use vstd::prelude::*;

verus! {

#[verifier::external_type_specification]
#[verifier::external_body]
#[verifier::reject_recursive_types(T)]
pub struct ExHeaderMap<T>(reqwest::header::HeaderMap<T>);

#[verifier::external_type_specification]
#[verifier::external_body]
pub struct ExHeaderValue(reqwest::header::HeaderValue);

/// The entries a header map holds: each distinct (lower-cased) header name,
/// mapped to the characters of its value.
pub uninterp spec fn header_entries(m: reqwest::header::HeaderMap) -> Map<Seq<char>, Seq<char>>;

/// `c`, with an ASCII capital letter turned into its small letter.
pub open spec fn lower_char(c: char) -> char {
    if 'A' <= c <= 'Z' {
        ((c as u8) + 32) as char
    } else {
        c
    }
}

/// `s`, with every ASCII capital letter turned into its small letter.
pub open spec fn lower_chars(s: Seq<char>) -> Seq<char> {
    s.map_values(|c: char| lower_char(c))
}

/// Whether `c` may stand in an HTTP header name: a letter, a digit, or one of
/// `!#$%&'*+-.^_`|~`. Capital letters are accepted and stored lower-cased.
pub open spec fn is_header_name_char(c: char) -> bool {
    ||| 'a' <= c <= 'z'
    ||| 'A' <= c <= 'Z'
    ||| '0' <= c <= '9'
    ||| c == '!' || c == '#' || c == '$' || c == '%' || c == '&' || c == '\'' || c == '*'
    ||| c == '+' || c == '-' || c == '.' || c == '^' || c == '_' || c == '`' || c == '|'
        || c == '~'
}

/// Whether `s` is accepted as an HTTP header name: non-empty, at most 65535
/// characters, every character from the header-name alphabet.
pub open spec fn valid_header_name(s: Seq<char>) -> bool {
    &&& 1 <= s.len() <= 65535
    &&& forall|i: int| 0 <= i < s.len() ==> is_header_name_char(#[trigger] s[i])
}

/// Whether `s` is accepted as an HTTP header value: no control characters
/// other than horizontal tab.
pub open spec fn valid_header_value(s: Seq<char>) -> bool {
    forall|i: int|
        0 <= i < s.len() ==> (#[trigger] s[i] == '\t' || (s[i] as u32 >= 32 && s[i] as u32
            != 127))
}

/// Whether every character of `s` can be read back out of a stored header
/// value: printable ASCII or horizontal tab.
pub open spec fn visible_value(s: Seq<char>) -> bool {
    forall|i: int|
        0 <= i < s.len() ==> (#[trigger] s[i] == '\t' || (32 <= s[i] as u32 <= 126))
}

/// Relies on reqwest::header::HeaderMap::new: a freshly made map holds no
/// entry.
#[verifier::external_body]
pub(crate) fn header_map_new() -> (m: reqwest::header::HeaderMap)
    ensures
        (header_entries(m) == Map::<Seq<char>, Seq<char>>::empty()),
{
    reqwest::header::HeaderMap::new()
}

/// Relies on reqwest::header::HeaderName::from_bytes, HeaderValue::from_str
/// and HeaderMap::try_insert: a name of valid characters is stored
/// lower-cased with its value, replacing any entry of the same name; an
/// invalid name or value is rejected and the map is left as it was. A very
/// full map may also refuse the entry: its index table can be asked to grow
/// past its hard cap by colliding names well before the cap on distinct
/// names itself is hit. Below 6554 distinct names the table never has to
/// grow past the cap on any path, so an insertion cannot be refused for
/// space.
#[verifier::external_body]
pub(crate) fn header_map_insert(m: &mut reqwest::header::HeaderMap, k: &str, v: &str) -> (ok:
    bool)
    ensures
        (valid_header_name(k@) && valid_header_value(v@) && header_entries(
            *old(m),
        ).dom().len() < 6554) ==> ok,
        !(valid_header_name(k@) && valid_header_value(v@)) ==> !ok,
        ok ==> header_entries(*final(m)) == header_entries(*old(m)).insert(lower_chars(k@), v@),
        !ok ==> header_entries(*final(m)) == header_entries(*old(m)),
{
    match (
        reqwest::header::HeaderName::from_bytes(k.as_bytes()),
        reqwest::header::HeaderValue::from_str(v),
    ) {
        (Ok(name), Ok(value)) => m.try_insert(name, value).is_ok(),
        _ => false,
    }
}

/// Relies on reqwest::header::HeaderMap::keys_len: the number of distinct
/// header names the map holds.
#[verifier::external_body]
pub(crate) fn header_map_keys_len(m: &reqwest::header::HeaderMap) -> (n: usize)
    ensures
        n == header_entries(*m).dom().len(),
{
    m.keys_len()
}

/// Relies on reqwest::header::HeaderMap::get and HeaderValue::to_str: the
/// value stored under the (lower-cased) name, when there is one and its
/// characters are printable; otherwise nothing.
#[verifier::external_body]
pub(crate) fn header_map_get(m: &reqwest::header::HeaderMap, k: &str) -> (r: Option<String>)
    ensures
        r is Some <==> (valid_header_name(k@) && header_entries(*m).contains_key(lower_chars(k@))
            && visible_value(header_entries(*m)[lower_chars(k@)])),
        r is Some ==> r->0@ == header_entries(*m)[lower_chars(k@)],
{
    match m.get(k) {
        Some(v) => match v.to_str() {
            Ok(s) => Some(s.to_owned()),
            Err(_) => None,
        },
        None => None,
    }
}

} // verus!
