//! Declarations of the `http` items (through `axum` and `reqwest`) that the
//! library calls.

use vstd::prelude::*;
use vstd::string::StringSliceAdditionalSpecFns;

verus! {

/// `axum::http::StatusCode::from_u16`, read back with `as_u16`: the source
/// accepts exactly the codes from 100 to 999 and keeps the number.
#[verifier::external_body]
pub(crate) fn status_code_from_u16(code: u16) -> (status: Option<u16>)
    ensures
        status == if 100 <= code <= 999 {
            Some(code)
        } else {
            None::<u16>
        },
{
    match axum::http::StatusCode::from_u16(code) {
        Ok(status) => Some(status.as_u16()),
        Err(_) => None,
    }
}

} // verus!

verus! {

/// `reqwest::header::HeaderName`, opaque; its bytes are named by
/// `header_name_bytes`.
#[verifier::external_type_specification]
#[verifier::external_body]
pub struct ExHeaderName(reqwest::header::HeaderName);

/// `reqwest::header::HeaderValue`, opaque; its bytes are named by
/// `header_value_bytes`.
#[verifier::external_type_specification]
#[verifier::external_body]
pub struct ExHeaderValue(reqwest::header::HeaderValue);

/// `reqwest::header::HeaderMap`, opaque; what it holds is named by
/// `header_map_contents`.
#[verifier::external_type_specification]
#[verifier::external_body]
#[verifier::reject_recursive_types(T)]
pub struct ExHeaderMap<T>(reqwest::header::HeaderMap<T>);

/// The normalized (lower-case) bytes of a header name.
pub uninterp spec fn header_name_bytes(name: reqwest::header::HeaderName) -> Seq<u8>;

/// The bytes of a header value.
pub uninterp spec fn header_value_bytes(value: reqwest::header::HeaderValue) -> Seq<u8>;

/// What a header map holds: for each normalized name, its values in order.
pub uninterp spec fn header_map_contents(
    map: reqwest::header::HeaderMap<reqwest::header::HeaderValue>,
) -> Map<Seq<u8>, Seq<Seq<u8>>>;

/// A byte that may stand in a header name (an RFC 9110 token character).
pub open spec fn header_name_byte(b: u8) -> bool {
    ||| 0x30 <= b <= 0x39
    ||| 0x41 <= b <= 0x5a
    ||| 0x61 <= b <= 0x7a
    ||| b == 0x21 || b == 0x23 || b == 0x24 || b == 0x25 || b == 0x26 || b == 0x27
    ||| b == 0x2a || b == 0x2b || b == 0x2d || b == 0x2e
    ||| b == 0x5e || b == 0x5f || b == 0x60 || b == 0x7c || b == 0x7e
}

/// A header-name byte with ASCII upper-case letters made lower-case.
pub open spec fn header_name_lower(b: u8) -> u8 {
    if 0x41 <= b <= 0x5a {
        (b + 0x20) as u8
    } else {
        b
    }
}

/// The longest header name `http` accepts.
pub open spec fn max_header_name_len() -> nat {
    65535
}

/// What `HeaderName::from_bytes` makes of some bytes: the lower-cased
/// bytes when there are 1 to 65535 of them and each is a token character,
/// otherwise nothing.
pub open spec fn parse_header_name(bytes: Seq<u8>) -> Option<Seq<u8>> {
    if 0 < bytes.len() <= max_header_name_len() && forall|i: int|
        0 <= i < bytes.len() ==> header_name_byte(#[trigger] bytes[i]) {
        Some(bytes.map_values(|b: u8| header_name_lower(b)))
    } else {
        None
    }
}

/// A byte that `HeaderValue::from_str` accepts: tab, or 32 to 255 except 127.
pub open spec fn header_value_byte(b: u8) -> bool {
    (b >= 32 && b != 127) || b == 9
}

/// A byte that `HeaderValue::to_str` accepts: tab, or visible ASCII.
pub open spec fn visible_header_byte(b: u8) -> bool {
    (32 <= b < 127) || b == 9
}

/// The bytes of the name `authorization`.
pub open spec fn authorization_bytes() -> Seq<u8> {
    seq![0x61u8, 0x75, 0x74, 0x68, 0x6f, 0x72, 0x69, 0x7a, 0x61, 0x74, 0x69, 0x6f, 0x6e]
}

/// The bytes of the name `content-type`.
pub open spec fn content_type_bytes() -> Seq<u8> {
    seq![0x63u8, 0x6f, 0x6e, 0x74, 0x65, 0x6e, 0x74, 0x2d, 0x74, 0x79, 0x70, 0x65]
}

/// The bytes of the name `content-length`.
pub open spec fn content_length_bytes() -> Seq<u8> {
    seq![0x63u8, 0x6f, 0x6e, 0x74, 0x65, 0x6e, 0x74, 0x2d, 0x6c, 0x65, 0x6e, 0x67, 0x74, 0x68]
}

/// `HeaderName::from_bytes`: in the source, `parse_hdr` maps each byte
/// through the `HEADER_CHARS` table (token characters, upper case mapped to
/// lower case, all else to 0) and fails on an empty name, a name longer
/// than `MAX_HEADER_NAME_LEN` (65535) or a byte mapped to 0.
#[verifier::external_body]
pub(crate) fn header_name_from_bytes(bytes: &[u8]) -> (name: Option<reqwest::header::HeaderName>)
    ensures
        match name {
            Some(n) => parse_header_name(bytes@) == Some(header_name_bytes(n)),
            None => parse_header_name(bytes@) is None,
        },
{
    reqwest::header::HeaderName::from_bytes(bytes).ok()
}

/// `reqwest::header::AUTHORIZATION`.
#[verifier::external_body]
pub(crate) fn authorization_header() -> (name: reqwest::header::HeaderName)
    ensures
        header_name_bytes(name) == authorization_bytes(),
{
    reqwest::header::AUTHORIZATION
}

/// `reqwest::header::CONTENT_TYPE`.
#[verifier::external_body]
pub(crate) fn content_type_header() -> (name: reqwest::header::HeaderName)
    ensures
        header_name_bytes(name) == content_type_bytes(),
{
    reqwest::header::CONTENT_TYPE
}

/// `reqwest::header::CONTENT_LENGTH`.
#[verifier::external_body]
pub(crate) fn content_length_header() -> (name: reqwest::header::HeaderName)
    ensures
        header_name_bytes(name) == content_length_bytes(),
{
    reqwest::header::CONTENT_LENGTH
}

/// `HeaderName == HeaderName`: names are compared by their normalized
/// bytes (a standard name is always held in its standard form).
#[verifier::external_body]
pub(crate) fn header_name_eq(
    a: &reqwest::header::HeaderName,
    b: &reqwest::header::HeaderName,
) -> (equal: bool)
    ensures
        equal == (header_name_bytes(*a) == header_name_bytes(*b)),
{
    a == b
}

/// `HeaderName::clone`: the copy has the same bytes.
#[verifier::external_body]
pub(crate) fn header_name_clone(name: &reqwest::header::HeaderName) -> (copy:
    reqwest::header::HeaderName)
    ensures
        header_name_bytes(copy) == header_name_bytes(*name),
{
    name.clone()
}

/// `HeaderValue::from_str`: in the source (`try_from_generic` with
/// `is_valid`), every byte must be a tab or lie in 32 to 255 other than 127;
/// the value keeps the bytes.
#[verifier::external_body]
pub(crate) fn header_value_from_str(text: &str) -> (value: Option<reqwest::header::HeaderValue>)
    ensures
        match value {
            Some(v) => header_value_bytes(v) == text.spec_bytes() && forall|i: int|
                0 <= i < text.spec_bytes().len() ==> header_value_byte(
                    #[trigger] text.spec_bytes()[i],
                ),
            None => exists|i: int|
                0 <= i < text.spec_bytes().len() && !header_value_byte(
                    #[trigger] text.spec_bytes()[i],
                ),
        },
{
    reqwest::header::HeaderValue::from_str(text).ok()
}

/// `HeaderValue::to_str`: succeeds exactly when every byte is a tab or
/// visible ASCII, and then yields those bytes as characters.
#[verifier::external_body]
pub(crate) fn header_value_to_str(value: &reqwest::header::HeaderValue) -> (text: Option<&str>)
    ensures
        match text {
            Some(t) => {
                &&& forall|i: int|
                    0 <= i < header_value_bytes(*value).len() ==> visible_header_byte(
                        #[trigger] header_value_bytes(*value)[i],
                    )
                &&& t@ == header_value_bytes(*value).map_values(|b: u8| b as char)
            },
            None => exists|i: int|
                0 <= i < header_value_bytes(*value).len() && !visible_header_byte(
                    #[trigger] header_value_bytes(*value)[i],
                ),
        },
{
    value.to_str().ok()
}

/// `HeaderMap::new`: an empty map.
#[verifier::external_body]
pub(crate) fn header_map_new() -> (created: reqwest::header::HeaderMap)
    ensures
        header_map_contents(created).dom() == Set::<Seq<u8>>::empty(),
{
    reqwest::header::HeaderMap::new()
}

/// `HeaderMap::insert`: the name is left with this one value, all earlier
/// values removed. The source panics when the map would grow past
/// `MAX_SIZE` (32768 slots): it grows on a full table (at 24576 names) or,
/// after long probe sequences, once the names times 5 reach the slots;
/// below 6554 names neither can go past 32768 slots.
#[verifier::external_body]
pub(crate) fn header_map_insert(
    map: &mut reqwest::header::HeaderMap,
    name: reqwest::header::HeaderName,
    value: reqwest::header::HeaderValue,
)
    requires
        header_map_contents(*old(map)).dom().len() < 6554,
    ensures
        header_map_contents(*final(map)) == header_map_contents(*old(map)).insert(
            header_name_bytes(name),
            seq![header_value_bytes(value)],
        ),
{
    map.insert(name, value);
}

/// `HeaderMap::get`: the first value of the name, if the name is present.
#[verifier::external_body]
pub(crate) fn header_map_get<'a>(
    map: &'a reqwest::header::HeaderMap,
    name: &reqwest::header::HeaderName,
) -> (value: Option<&'a reqwest::header::HeaderValue>)
    ensures
        match value {
            Some(v) => header_map_contents(*map).contains_key(header_name_bytes(*name))
                && header_map_contents(*map)[header_name_bytes(*name)].len() > 0
                && header_value_bytes(*v) == header_map_contents(*map)[header_name_bytes(
                *name,
            )][0],
            None => !header_map_contents(*map).contains_key(header_name_bytes(*name)),
        },
{
    map.get(name)
}

/// `HeaderMap::remove`: the name and all its values leave the map.
#[verifier::external_body]
pub(crate) fn header_map_remove(
    map: &mut reqwest::header::HeaderMap,
    name: &reqwest::header::HeaderName,
)
    ensures
        header_map_contents(*final(map)) == header_map_contents(*old(map)).remove(
            header_name_bytes(*name),
        ),
{
    map.remove(name);
}

/// `reqwest::Url`, opaque; its text is named by `url_text`.
#[verifier::external_type_specification]
#[verifier::external_body]
pub struct ExUrl(reqwest::Url);

/// The serialization of a URL (`Url::as_str`).
pub uninterp spec fn url_text(url: reqwest::Url) -> Seq<char>;

/// What `Url::parse` makes of a text: the serialization of the parsed URL,
/// or the text of the parse error.
pub uninterp spec fn parse_url_text(text: Seq<char>) -> Result<Seq<char>, Seq<char>>;

/// `reqwest::Url::parse`, the error rendered as its text.
#[verifier::external_body]
pub(crate) fn parse_url(text: &str) -> (url: Result<reqwest::Url, String>)
    ensures
        match url {
            Ok(u) => parse_url_text(text@) == Ok::<Seq<char>, Seq<char>>(url_text(u)),
            Err(message) => parse_url_text(text@) == Err::<Seq<char>, Seq<char>>(message@),
        },
{
    reqwest::Url::parse(text).map_err(|error| error.to_string())
}

} // verus!
