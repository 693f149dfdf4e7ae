//! The header collection that every outbound request carries.
//!
//! The collection itself is `reqwest`'s `HeaderMap`. Verus cannot look inside
//! it, so this module names what a map holds ([`header_entries`]) and states,
//! for the three operations the client needs, how each one changes that
//! content. Everything else in the crate is proved from those statements.

use reqwest::header::HeaderMap;
use reqwest::header::HeaderValue;
use vstd::prelude::*;

verus! {

/// `HeaderMap`, the multimap of header names to values, as an opaque type.
#[verifier::external_type_specification]
#[verifier::external_body]
#[verifier::reject_recursive_types(T)]
pub struct ExHeaderMap<T>(HeaderMap<T>);

/// `HeaderValue`, the bytes of one header value, as an opaque type.
#[verifier::external_type_specification]
#[verifier::external_body]
pub struct ExHeaderValue(HeaderValue);

/// What a header map holds: for each header name in it (names are stored in
/// lower case), the text of the first value under that name, which is the
/// only one where the map was filled by [`insert_header`] alone.
pub uninterp spec fn header_entries(headers: HeaderMap<HeaderValue>) -> Map<Seq<char>, Seq<char>>;

/// A map without any header.
pub open spec fn no_headers() -> Map<Seq<char>, Seq<char>> {
    Map::empty()
}

/// A character that may stand in a header name as this crate writes them:
/// a lower-case letter, a digit or a hyphen.
pub open spec fn is_name_char(c: char) -> bool {
    ||| 'a' <= c <= 'z'
    ||| '0' <= c <= '9'
    ||| c == '-'
}

/// A header name in canonical form: one to sixty-four characters, each a
/// lower-case letter, a digit or a hyphen. The map stores such a name as it is.
pub open spec fn is_header_name(name: Seq<char>) -> bool {
    &&& 1 <= name.len() <= 64
    &&& forall|i: int| 0 <= i < name.len() ==> is_name_char(#[trigger] name[i])
}

/// A character that may stand in a header value: a tab, or anything from the
/// space upward except the delete character.
pub open spec fn is_value_char(c: char) -> bool {
    c == '\t' || (' ' <= c && c != '\x7f')
}

/// Text that can be sent as a header value.
pub open spec fn is_header_value(text: Seq<char>) -> bool {
    forall|i: int| 0 <= i < text.len() ==> is_value_char(#[trigger] text[i])
}

/// The number of names below which a header map always has room for one more.
pub const HEADER_ROOM: usize = 1024;

/// A map that is certain to accept another name.
pub open spec fn has_room(entries: Map<Seq<char>, Seq<char>>) -> bool {
    entries.dom().finite() && entries.dom().len() < HEADER_ROOM
}

/// `HeaderMap::new`: the new map holds no header.
#[verifier::external_body]
pub(crate) fn empty_headers() -> (out: HeaderMap<HeaderValue>)
    ensures
        header_entries(out) == no_headers(),
{
    HeaderMap::new()
}

/// `HeaderMap::insert`, with the value made by `HeaderValue::from_str`: the
/// name now maps to the given text, whatever it mapped to before, and no other
/// name is touched.
///
/// `from_str` rejects exactly the text that holds the delete character or a
/// character below the space other than tab. `insert` panics on a name outside
/// the header-name alphabet, and on a map whose table cannot grow any more;
/// a table grows only when a fifth of its slots are taken, and up to 32768
/// slots, so a map of fewer than [`HEADER_ROOM`] names always has room. The
/// preconditions keep all three away, so the call returns.
#[verifier::external_body]
pub(crate) fn insert_header(headers: &mut HeaderMap<HeaderValue>, name: &'static str, value: &str)
    requires
        is_header_name(name@),
        is_header_value(value@),
        has_room(header_entries(*old(headers))),
    ensures
        header_entries(*final(headers)) == header_entries(*old(headers)).insert(name@, value@),
    no_unwind
{
    headers.insert(name, HeaderValue::from_str(value).unwrap());
}

/// `HeaderMap::clone`: the copy holds what the map it is taken from holds.
#[verifier::external_body]
pub(crate) fn copy_headers(headers: &HeaderMap<HeaderValue>) -> (out: HeaderMap<HeaderValue>)
    ensures
        header_entries(out) == header_entries(*headers),
{
    headers.clone()
}

/// Tells whether `text` can be sent as a header value.
pub fn check_header_value(text: &str) -> (ok: bool)
    ensures
        ok == is_header_value(text@),
{
    broadcast use vstd::string::group_string_axioms;

    for c in it: text.chars()
        invariant
            it.seq() == text@,
            forall|j: int| 0 <= j < it.index() ==> is_value_char(#[trigger] text@[j]),
    {
        if !(c == '\t' || (c >= ' ' && c != '\x7f')) {
            return false;
        }
    }
    true
}

} // verus!
