//! JSON values of `serde_json`, and what they hold.

use vstd::prelude::*;

use crate::duration::Duration;
use crate::text;

verus! {

/// The type of JSON values.
#[verifier::external_type_specification]
#[verifier::external_body]
pub struct ExValue(serde_json::Value);

/// What a JSON value can hold.
pub enum JsonView {
    Null,
    Bool(bool),
    /// A whole number.
    Number(int),
    /// A floating-point number, by its bits.
    Double(u64),
    Text(Seq<char>),
    List(Seq<JsonView>),
    /// An object, with its members in order.
    Object(Seq<(Seq<char>, JsonView)>),
}

/// What a JSON value holds.
pub uninterp spec fn held_by(v: serde_json::Value) -> JsonView;

/// The bits of the double that the standard library gives for a span of `secs` seconds and
/// `nanos` nanoseconds, as a number of seconds.
pub uninterp spec fn seconds_bits(secs: u64, nanos: u32) -> u64;

/// The indented text that `serde_json` gives for a value, or why it gives none.
pub uninterp spec fn pretty_json(v: JsonView) -> Result<Seq<char>, Seq<char>>;

/// What several JSON values hold.
pub open spec fn values_of(v: Seq<serde_json::Value>) -> Seq<JsonView> {
    v.map_values(|value: serde_json::Value| held_by(value))
}

/// What the members of an object hold.
pub open spec fn members_of(v: Seq<(String, serde_json::Value)>) -> Seq<(Seq<char>, JsonView)> {
    v.map_values(|m: (String, serde_json::Value)| (m.0@, held_by(m.1)))
}

/// Whether no two members have the same name.
pub open spec fn distinct_names(members: Seq<(Seq<char>, JsonView)>) -> bool {
    forall|i: int, j: int|
        0 <= i < j < members.len() ==> (#[trigger] members[i]).0 != (#[trigger] members[j]).0
}

/// A span in nanoseconds as a JSON number of seconds.
pub open spec fn seconds_of(span: nat) -> JsonView {
    JsonView::Double(
        seconds_bits((span / 1_000_000_000) as u64, (span % 1_000_000_000) as u32),
    )
}

/// A string, or `null`.
pub open spec fn text_or_null(o: Option<Seq<char>>) -> JsonView {
    match o {
        Some(s) => JsonView::Text(s),
        None => JsonView::Null,
    }
}

// ---------------------------------------------------------------------------
// Values
// ---------------------------------------------------------------------------

/// `serde_json::Value::Null` holds nothing.
#[verifier::external_body]
pub(crate) fn null_value() -> (v: serde_json::Value)
    ensures
        held_by(v) == JsonView::Null,
{
    serde_json::Value::Null
}

/// `serde_json::Value::Bool` holds the given flag.
#[verifier::external_body]
pub(crate) fn bool_value(b: bool) -> (v: serde_json::Value)
    ensures
        held_by(v) == JsonView::Bool(b),
{
    serde_json::Value::Bool(b)
}

/// `serde_json::Value::from` for a whole number gives a value that holds the number.
#[verifier::external_body]
pub(crate) fn number_value(n: i32) -> (v: serde_json::Value)
    ensures
        held_by(v) == JsonView::Number(n as int),
{
    serde_json::Value::from(n)
}

/// `serde_json::Value::from` for the number of seconds of a `std::time::Duration` gives a
/// value that holds this number, which is always finite. How the number is rounded is left
/// unsaid.
#[verifier::external_body]
fn span_value(secs: u64, nanos: u32) -> (v: serde_json::Value)
    requires
        nanos < 1_000_000_000,
    ensures
        held_by(v) == JsonView::Double(seconds_bits(secs, nanos)),
{
    serde_json::Value::from(std::time::Duration::new(secs, nanos).as_secs_f64())
}

/// `serde_json::Value::String` holds the given text.
#[verifier::external_body]
pub(crate) fn text_value(s: String) -> (v: serde_json::Value)
    ensures
        held_by(v) == JsonView::Text(s@),
{
    serde_json::Value::String(s)
}

/// `serde_json::Value::Array` holds the given values, in order.
#[verifier::external_body]
pub(crate) fn list_value(values: Vec<serde_json::Value>) -> (v: serde_json::Value)
    ensures
        held_by(v) == JsonView::List(values_of(values@)),
{
    serde_json::Value::Array(values)
}

/// `serde_json::Value::Object` holds the map that `serde_json::Map` collects: with the
/// feature `preserve_order` its members come in the order in which they were given. A
/// later member would replace an earlier one of the same name, so the names are distinct.
#[verifier::external_body]
pub(crate) fn object_value(members: Vec<(String, serde_json::Value)>) -> (v: serde_json::Value)
    requires
        distinct_names(members_of(members@)),
    ensures
        held_by(v) == JsonView::Object(members_of(members@)),
{
    serde_json::Value::Object(members.into_iter().collect())
}

/// The text of a rendering, or why there is none.
pub open spec fn rendered_of(r: Result<String, String>) -> Result<Seq<char>, Seq<char>> {
    match r {
        Ok(text) => Ok(text@),
        Err(e) => Err(e@),
    }
}

/// `serde_json::to_string_pretty`, named by [`pretty_json`]: the text depends on what the
/// value holds alone. It fails only where a map has keys that are not strings or a type
/// refuses to be serialised, so it gives a text for every JSON value.
#[verifier::external_body]
pub(crate) fn to_string_pretty(v: &serde_json::Value) -> (r: Result<String, String>)
    ensures
        rendered_of(r) == pretty_json(held_by(*v)),
        r is Ok,
{
    serde_json::to_string_pretty(v).map_err(|e| e.to_string())
}

/// The JSON number of seconds of a span.
pub(crate) fn seconds_value(d: &Duration) -> (v: serde_json::Value)
    ensures
        held_by(v) == seconds_of(d@),
{
    span_value(d.as_secs(), d.subsec_nanos())
}

/// A string, or `null`.
pub(crate) fn optional_text(o: &Option<String>) -> (v: serde_json::Value)
    ensures
        held_by(v) == text_or_null(text::opt_text(*o)),
{
    match o {
        Some(s) => text_value(s.clone()),
        None => null_value(),
    }
}

/// Adds a member at the end of an object.
pub(crate) fn push_member(
    members: &mut Vec<(String, serde_json::Value)>,
    name: &str,
    value: serde_json::Value,
)
    ensures
        members_of(final(members)@) == members_of(old(members)@).push((name@, held_by(value))),
{
    members.push((name.to_owned(), value));
    assert(members_of(members@) =~= members_of(old(members)@).push((name@, held_by(value))));
}

// ---------------------------------------------------------------------------
// Laws
// ---------------------------------------------------------------------------

/// A span is written as the number of its seconds, from its whole seconds and the nanoseconds
/// beyond them.
pub proof fn law_span_is_written_in_seconds(secs: u64, nanos: u32)
    requires
        nanos < 1_000_000_000,
    ensures
        seconds_of((secs * 1_000_000_000 + nanos) as nat) == JsonView::Double(
            seconds_bits(secs, nanos),
        ),
{
    let span = (secs * 1_000_000_000 + nanos) as nat;
    assert(span / 1_000_000_000 == secs && span % 1_000_000_000 == nanos);
}

/// A text that is there is written as it is, and `null` stands exactly for one that is not.
pub proof fn law_absent_text_is_null(o: Option<Seq<char>>)
    ensures
        o matches Some(s) ==> text_or_null(o) == JsonView::Text(s),
        o is None <==> text_or_null(o) is Null,
{
}

} // verus!
