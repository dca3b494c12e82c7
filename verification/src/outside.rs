//! What this library takes on trust from other crates and from std: the
//! types it carries through, and one small function for each call it makes.
//! Nothing in this file is proved; everything else is proved from it.

use crate::entities::Timestamp;
use vstd::prelude::*;

verus! {

/// `uuid::Uuid`, carried through as an opaque value.
#[verifier::external_type_specification]
#[verifier::external_body]
pub struct ExUuid(uuid::Uuid);

/// `tokio::sync::mpsc::Sender`, the write end of a fragment channel.
#[verifier::external_type_specification]
#[verifier::external_body]
#[verifier::reject_recursive_types(T)]
pub struct ExSender<T>(tokio::sync::mpsc::Sender<T>);

/// `tokio::sync::mpsc::Receiver`, the read end of a fragment channel.
#[verifier::external_type_specification]
#[verifier::external_body]
#[verifier::reject_recursive_types(T)]
pub struct ExReceiver<T>(tokio::sync::mpsc::Receiver<T>);

/// `minijinja::Value`, the input of a chat template.
#[verifier::external_type_specification]
#[verifier::external_body]
pub struct ExJinjaValue(minijinja::Value);

/// `http::HeaderValue`, as axum hands it out.
#[verifier::external_type_specification]
#[verifier::external_body]
pub struct ExHeaderValue(axum::http::HeaderValue);

/// The identifier that `Uuid::parse_str` reads from a text, if it reads one.
pub uninterp spec fn uuid_of_text(text: Seq<char>) -> Option<uuid::Uuid>;

/// The bytes that a header value holds.
pub uninterp spec fn header_bytes(value: axum::http::HeaderValue) -> Seq<u8>;

/// The number that `usize::from_str` reads from a text, if it reads one.
pub uninterp spec fn usize_of_text(text: Seq<char>) -> Option<usize>;

/// The template value that `minijinja::Value::from_serialize` makes of a text.
pub uninterp spec fn jinja_text(text: Seq<char>) -> minijinja::Value;

/// The template value that `minijinja::Value::from_serialize` makes of a list
/// of values.
pub uninterp spec fn jinja_list(items: Seq<minijinja::Value>) -> minijinja::Value;

/// The template value that minijinja's context builder makes of keys and
/// their values.
pub uninterp spec fn jinja_map(entries: Seq<(Seq<char>, minijinja::Value)>) -> minijinja::Value;

/// A byte that `http` counts as visible ASCII: printable, a space or a tab.
pub open spec fn is_visible_ascii(byte: u8) -> bool {
    32 <= byte < 127 || byte == 9
}

/// Every byte is visible ASCII.
pub open spec fn all_visible_ascii(bytes: Seq<u8>) -> bool {
    forall|i: int| 0 <= i < bytes.len() ==> is_visible_ascii(#[trigger] bytes[i])
}

/// Bytes read as characters, one for one.
pub open spec fn ascii_text(bytes: Seq<u8>) -> Seq<char> {
    Seq::new(bytes.len(), |i: int| bytes[i] as char)
}

/// The keys and values of a template map, keys by their text.
pub open spec fn entries_view(entries: Seq<(&'static str, minijinja::Value)>) -> Seq<
    (Seq<char>, minijinja::Value),
> {
    Seq::new(entries.len(), |i: int| (entries[i].0@, entries[i].1))
}

/// `needle` occurs in `haystack` as a run of consecutive characters.
pub open spec fn occurs_in(needle: Seq<char>, haystack: Seq<char>) -> bool {
    exists|i: int|
        0 <= i && i + needle.len() <= haystack.len() && #[trigger] haystack.subrange(
            i,
            i + needle.len(),
        ) == needle
}

/// `Uuid` is `Copy`: its clone is the identifier itself.
pub assume_specification[ <uuid::Uuid as Clone>::clone ](id: &uuid::Uuid) -> (copy: uuid::Uuid)
    ensures
        copy == *id,
;

/// Calls `Uuid::new_v4`. The identifier is random: nothing is claimed of it.
#[verifier::external_body]
pub(crate) fn new_uuid() -> uuid::Uuid {
    uuid::Uuid::new_v4()
}

/// Calls `Uuid::parse_str`, which is what `Uuid::from_str` does. Claims that
/// whether a text is read, and as which identifier, depends on the text alone.
#[verifier::external_body]
pub(crate) fn parse_uuid(text: &str) -> (id: Option<uuid::Uuid>)
    ensures
        id == uuid_of_text(text@),
{
    uuid::Uuid::parse_str(text).ok()
}

/// Calls `chrono::Utc::now` and takes the seconds and nanoseconds of what it
/// returns. The time is the machine's: nothing is claimed of it. `Utc::now`
/// panics where the system clock stands before 1970.
#[verifier::external_body]
pub(crate) fn utc_now() -> Timestamp {
    let now = chrono::Utc::now();
    Timestamp { secs: now.timestamp(), nanos: now.timestamp_subsec_nanos() }
}

/// Calls `tokio::sync::mpsc::channel`, which panics on a buffer of zero and
/// on one above `usize::MAX >> 3`. Nothing is claimed of the two ends.
#[verifier::external_body]
pub(crate) fn fragment_channel(buffer: usize) -> (ends: (
    tokio::sync::mpsc::Sender<String>,
    tokio::sync::mpsc::Receiver<String>,
))
    requires
        1 <= buffer <= usize::MAX / 8,
{
    tokio::sync::mpsc::channel::<String>(buffer)
}

/// Calls `HeaderValue::to_str`. Claims what its source shows: a text comes
/// back exactly when every byte is visible ASCII, and it is those bytes read
/// as characters.
#[verifier::external_body]
pub(crate) fn header_to_str(value: &axum::http::HeaderValue) -> (text: Option<&str>)
    ensures
        text is Some <==> all_visible_ascii(header_bytes(*value)),
        text matches Some(t) ==> t@ == ascii_text(header_bytes(*value)),
{
    value.to_str().ok()
}

/// Calls `usize::from_str`. Claims that whether a text is read, and as which
/// number, depends on the text alone.
#[verifier::external_body]
pub(crate) fn parse_usize(text: &str) -> (n: Option<usize>)
    ensures
        n == usize_of_text(text@),
{
    <usize as std::str::FromStr>::from_str(text).ok()
}

/// Calls `str::contains` with a string as the pattern. Claims what std
/// documents: whether the pattern matches a sub-slice of the string.
#[verifier::external_body]
pub(crate) fn str_contains(haystack: &str, needle: &str) -> (found: bool)
    ensures
        found == occurs_in(needle@, haystack@),
{
    haystack.contains(needle)
}

/// Calls `minijinja::Value::from_serialize` on a text. Claims that the value
/// depends on the text alone.
#[verifier::external_body]
pub(crate) fn jinja_text_value(text: &str) -> (value: minijinja::Value)
    ensures
        value == jinja_text(text@),
{
    minijinja::Value::from_serialize(text)
}

/// Calls `minijinja::Value::from_serialize` on a list of values. Claims that
/// the value depends on the items alone.
#[verifier::external_body]
pub(crate) fn jinja_list_value(items: Vec<minijinja::Value>) -> (value: minijinja::Value)
    ensures
        value == jinja_list(items@),
{
    minijinja::Value::from_serialize(&items)
}

/// Calls `minijinja::__context::build`, the function that minijinja's
/// `context!` ends in. Claims that the value depends on the keys and their
/// values alone.
#[verifier::external_body]
pub(crate) fn jinja_map_value(entries: Vec<(&'static str, minijinja::Value)>) -> (value:
    minijinja::Value)
    ensures
        value == jinja_map(entries_view(entries@)),
{
    minijinja::__context::build(entries)
}

} // verus!
