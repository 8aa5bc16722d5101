//! What the library takes from the HTTP crates: the header collection, the
//! rules for header names and values, and URL parsing. Nothing in this file
//! is proved; each item says what it takes on trust.

use reqwest::header::{HeaderMap, HeaderName, HeaderValue};
use vstd::prelude::*;
use vstd::utf8::encode_utf8;

verus! {

/// The header collection of the `http` crate, as `reqwest` hands it on.
#[verifier::external_type_specification]
#[verifier::external_body]
#[verifier::reject_recursive_types(T)]
pub struct ExHeaderMap<T>(reqwest::header::HeaderMap<T>);

/// The header value of the `http` crate: what a header map holds where no
/// other type is named.
#[verifier::external_type_specification]
#[verifier::external_body]
pub struct ExHeaderValue(reqwest::header::HeaderValue);

/// The values that a header map holds: for each name, in lower case, the
/// bytes of its values in the order in which they were added.
pub uninterp spec fn header_entries(headers: HeaderMap) -> Map<Seq<char>, Seq<Seq<u8>>>;

/// The number of values that a header map holds, over all names.
pub uninterp spec fn header_count(headers: HeaderMap) -> nat;

/// The largest number of values after which a header map is known to take
/// one more.
pub const HEADER_ROOM: usize = 6553;

/// Whether `c` may stand in a header name: a letter, a digit or one of
/// ``!#$%&'*+-.^_`|~``.
pub open spec fn is_token_char(c: char) -> bool {
    ||| 'a' <= c <= 'z'
    ||| 'A' <= c <= 'Z'
    ||| '0' <= c <= '9'
    ||| c == '!' || c == '#' || c == '$' || c == '%' || c == '&' || c == '\'' || c == '*'
    ||| c == '+' || c == '-' || c == '.' || c == '^' || c == '_' || c == '`' || c == '|'
    ||| c == '~'
}

/// Whether `c` may stand in a header value: a tab, or any character from
/// the space on but for the delete character.
pub open spec fn is_value_char(c: char) -> bool {
    c == '\t' || (' ' <= c && c != '\u{7f}')
}

/// A header name is a token of 1 to 65535 characters.
pub open spec fn is_header_name(name: Seq<char>) -> bool {
    &&& 0 < name.len() <= 65535
    &&& forall|i: int| 0 <= i < name.len() ==> is_token_char(#[trigger] name[i])
}

/// A header value holds no control character but the tab.
pub open spec fn is_header_value(value: Seq<char>) -> bool {
    forall|i: int| 0 <= i < value.len() ==> is_value_char(#[trigger] value[i])
}

/// `c`, with a capital letter of the alphabet turned into its small one.
pub open spec fn lowercase_char(c: char) -> char {
    if 'A' <= c <= 'Z' {
        ((c as u32) + 32) as char
    } else {
        c
    }
}

/// `text` in lower case, as a header map keeps its names.
pub open spec fn lowercase(text: Seq<char>) -> Seq<char> {
    Seq::new(text.len(), |i: int| lowercase_char(text[i]))
}

/// A map without headers.
pub open spec fn no_headers() -> Map<Seq<char>, Seq<Seq<u8>>> {
    Map::empty()
}

/// `entries` after one more value was added under `name`: behind the values
/// that the name already has.
pub open spec fn with_header(
    entries: Map<Seq<char>, Seq<Seq<u8>>>,
    name: Seq<char>,
    value: Seq<u8>,
) -> Map<Seq<char>, Seq<Seq<u8>>> {
    if entries.dom().contains(name) {
        entries.insert(name, entries[name].push(value))
    } else {
        entries.insert(name, seq![value])
    }
}

/// `HeaderMap::new` of the `http` crate. Trusted: the new map holds nothing.
#[verifier::external_body]
pub(crate) fn empty_headers() -> (headers: HeaderMap)
    ensures
        header_entries(headers) == no_headers(),
        header_count(headers) == 0,
{
    HeaderMap::new()
}

/// `HeaderMap::try_append` of the `http` crate, on a name made by
/// `HeaderName::from_bytes` and a value made by `HeaderValue::from_str`.
///
/// Trusted:
/// - `from_bytes` takes exactly the tokens of 1 to 65535 bytes and keeps
///   them in lower case; `from_str` takes exactly the texts whose bytes are
///   a tab, or 32 and above without 127, and keeps their bytes;
/// - `try_append` puts the value behind those that the name has, and leaves
///   the map as it was where it refuses;
/// - `try_append` refuses only where the map holds 32768 names, or where
///   its table has 32768 slots and would have to double. The table doubles
///   once the names fill three quarters of its slots, or, after a long run
///   of collisions, a fifth of them: with 32768 slots that takes 6554 names
///   or more. So a map of `HEADER_ROOM` values or fewer takes one more.
#[verifier::external_body]
pub(crate) fn try_append_header(headers: &mut HeaderMap, name: &str, value: &str) -> (added: bool)
    ensures
        added ==> is_header_name(name@) && is_header_value(value@),
        added ==> header_entries(*final(headers)) == with_header(
            header_entries(*old(headers)),
            lowercase(name@),
            encode_utf8(value@),
        ),
        added ==> header_count(*final(headers)) == header_count(*old(headers)) + 1,
        !added ==> header_entries(*final(headers)) == header_entries(*old(headers)),
        !added ==> header_count(*final(headers)) == header_count(*old(headers)),
        is_header_name(name@) && is_header_value(value@) && header_count(*old(headers))
            <= HEADER_ROOM ==> added,
{
    match (HeaderName::from_bytes(name.as_bytes()), HeaderValue::from_str(value)) {
        (Ok(name), Ok(value)) => headers.try_append(name, value).is_ok(),
        _ => false,
    }
}

/// What `Url::parse` of the `url` crate makes of `text`: the URL in its
/// normal form, or `None` where `text` is no absolute URL.
pub uninterp spec fn parsed_url(text: Seq<char>) -> Option<Seq<char>>;

/// `Url::parse` of the `url` crate, as `reqwest` hands it on, with the URL
/// given back as the text that it serialises to. Trusted: the outcome is a
/// function of `text` alone.
#[verifier::external_body]
pub(crate) fn parse_url(text: &str) -> (url: Option<String>)
    ensures
        url matches Some(normal) ==> parsed_url(text@) == Some(normal@),
        url is None ==> parsed_url(text@) is None,
{
    reqwest::Url::parse(text).ok().map(String::from)
}

/// Whether `text` is an absolute URL in the form that parsing gives.
pub open spec fn is_absolute_url(text: Seq<char>) -> bool {
    exists|raw: Seq<char>| parsed_url(raw) == Some(text)
}

} // verus!
