use vstd::prelude::*;

verus! {

/// A JSON document as a mathematical value.
pub enum Json {
    Null,
    Bool(bool),
    Number(serde_json::Number),
    Text(Seq<char>),
    Array(Seq<Json>),
    Object(Map<Seq<char>, Json>),
}

/// `serde_json::Value`, a JSON document in memory. Nothing of its inside is
/// known here but through [`json_content`].
#[verifier::external_type_specification]
#[verifier::external_body]
pub struct ExValue(serde_json::Value);

/// `serde_json::Number`, a JSON number. It is carried about and never
/// computed with.
#[verifier::external_type_specification]
#[verifier::external_body]
pub struct ExNumber(serde_json::Number);

/// `serde_json::Error`, the refusal of a text that is no JSON.
#[verifier::external_type_specification]
#[verifier::external_body]
pub struct ExError(serde_json::Error);

/// The document that a `serde_json::Value` holds.
pub uninterp spec fn json_content(value: serde_json::Value) -> Json;

/// What `serde_json::from_str` makes of a text: the document it holds, or the
/// words in which the text is refused.
pub uninterp spec fn json_reading(text: Seq<char>) -> Result<Json, Seq<char>>;

/// What `serde_json::Number::as_i64` makes of a number: the number itself
/// where it is written as an integer and fits 64 bits with a sign.
pub uninterp spec fn whole_reading(number: serde_json::Number) -> Option<i64>;

/// The words of a `serde_json::Error`, as its `Display` writes them.
pub uninterp spec fn error_text(error: serde_json::Error) -> Seq<char>;

/// The documents that a list of values holds, in order.
pub open spec fn contents(values: Seq<serde_json::Value>) -> Seq<Json> {
    values.map_values(|v: serde_json::Value| json_content(v))
}

/// The member `key` of an object; `None` for anything but an object that has
/// such a member.
pub open spec fn member_of(doc: Json, key: Seq<char>) -> Option<Json> {
    match doc {
        Json::Object(members) => if members.dom().contains(key) {
            Some(members[key])
        } else {
            None
        },
        _ => None,
    }
}

/// The keys and documents of a list of members.
pub open spec fn entries_of(members: Seq<(String, serde_json::Value)>) -> Seq<
    (Seq<char>, Json),
> {
    members.map_values(|m: (String, serde_json::Value)| (m.0@, json_content(m.1)))
}

/// Whether no key occurs twice in a list of members.
pub open spec fn distinct_keys(entries: Seq<(Seq<char>, Json)>) -> bool {
    forall|i: int, j: int|
        0 <= i < j < entries.len() ==> (#[trigger] entries[i]).0 != (#[trigger] entries[j]).0
}

/// The object that has exactly the given members.
pub open spec fn object_of(entries: Seq<(Seq<char>, Json)>) -> Map<Seq<char>, Json>
    decreases entries.len(),
{
    if entries.len() == 0 {
        Map::empty()
    } else {
        object_of(entries.drop_last()).insert(entries.last().0, entries.last().1)
    }
}

/// Parses a text with `serde_json::from_str`, into a `serde_json::Value`.
///
/// Believed of serde_json: whether the text is taken, the document it is
/// taken for and the words in which it is refused depend on the text alone.
#[verifier::external_body]
pub(crate) fn read_json(text: &str) -> (r: Result<serde_json::Value, serde_json::Error>)
    ensures
        match r {
            Ok(value) => json_reading(text@) == Ok::<Json, Seq<char>>(json_content(value)),
            Err(error) => json_reading(text@) == Err::<Json, Seq<char>>(error_text(error)),
        },
{
    serde_json::from_str::<serde_json::Value>(text)
}

/// Writes a `serde_json::Error` out with its `Display`, through `to_string`.
#[verifier::external_body]
pub(crate) fn describe(error: &serde_json::Error) -> (words: String)
    ensures
        words@ == error_text(*error),
{
    error.to_string()
}

/// Looks a member up with `serde_json::Value::get`.
///
/// Believed of serde_json: an object hands out the value stored under the
/// key, and anything else, or an object without the key, hands out nothing.
#[verifier::external_body]
pub(crate) fn member<'a>(doc: &'a serde_json::Value, key: &str) -> (r: Option<
    &'a serde_json::Value,
>)
    ensures
        match r {
            Some(found) => member_of(json_content(*doc), key@) == Some(json_content(*found)),
            None => member_of(json_content(*doc), key@) is None,
        },
{
    doc.get(key)
}

/// `serde_json::Value::is_null` tells whether the value is `null`.
pub assume_specification[ serde_json::Value::is_null ](doc: &serde_json::Value) -> (r: bool)
    ensures
        r == (json_content(*doc) is Null),
;

/// `serde_json::Value::as_str` hands out the characters of a string, and
/// nothing for anything else.
pub assume_specification<'a>[ serde_json::Value::as_str ](doc: &'a serde_json::Value) -> (r:
    Option<&'a str>)
    ensures
        match r {
            Some(text) => json_content(*doc) == Json::Text(text@),
            None => !(json_content(*doc) is Text),
        },
;

/// `serde_json::Number::as_i64` hands out the integer reading of a number.
pub assume_specification[ serde_json::Number::as_i64 ](number: &serde_json::Number) -> (r: Option<
    i64,
>)
    ensures
        r == whole_reading(*number),
;

/// `serde_json::Value::as_number` hands out the number that the value is, and
/// nothing for anything else.
pub assume_specification<'a>[ serde_json::Value::as_number ](doc: &'a serde_json::Value) -> (r:
    Option<&'a serde_json::Number>)
    ensures
        match r {
            Some(number) => json_content(*doc) == Json::Number(*number),
            None => !(json_content(*doc) is Number),
        },
;

/// `Clone::clone` of a `serde_json::Number` hands out the same number.
pub assume_specification[ <serde_json::Number as Clone>::clone ](
    number: &serde_json::Number,
) -> (r: serde_json::Number)
    ensures
        r == *number,
;

/// `serde_json::Value::as_array` hands out the items of an array, and nothing
/// for anything else.
pub assume_specification<'a>[ serde_json::Value::as_array ](doc: &'a serde_json::Value) -> (r:
    Option<&'a Vec<serde_json::Value>>)
    ensures
        match r {
            Some(items) => json_content(*doc) == Json::Array(contents(items@)),
            None => !(json_content(*doc) is Array),
        },
;

/// The value `serde_json::Value::Null`.
#[verifier::external_body]
pub(crate) fn null_value() -> (v: serde_json::Value)
    ensures
        json_content(v) == Json::Null,
{
    serde_json::Value::Null
}

/// The value `serde_json::Value::String` of a string: it is that string.
#[verifier::external_body]
pub(crate) fn text_value(text: String) -> (v: serde_json::Value)
    ensures
        json_content(v) == Json::Text(text@),
{
    serde_json::Value::String(text)
}

/// Makes a number of an integer with `serde_json::Number::from`.
///
/// Believed of serde_json: the integer reading of the number is that
/// integer.
#[verifier::external_body]
pub(crate) fn whole_number(whole: i64) -> (n: serde_json::Number)
    ensures
        whole_reading(n) == Some(whole),
{
    serde_json::Number::from(whole)
}

/// The value `serde_json::Value::Number` of a number: it is that number.
#[verifier::external_body]
pub(crate) fn number_value(number: serde_json::Number) -> (v: serde_json::Value)
    ensures
        json_content(v) == Json::Number(number),
{
    serde_json::Value::Number(number)
}

/// The value `serde_json::Value::Array` of a list of values: it is the array
/// of these items, in their order.
#[verifier::external_body]
pub(crate) fn array_value(items: Vec<serde_json::Value>) -> (v: serde_json::Value)
    ensures
        json_content(v) == Json::Array(contents(items@)),
{
    serde_json::Value::Array(items)
}

/// An object, through the `FromIterator` of `serde_json::Value` for pairs of
/// key and value.
///
/// Believed of serde_json: where no key occurs twice, the value is the object
/// that has exactly these members.
#[verifier::external_body]
pub(crate) fn object_value(members: Vec<(String, serde_json::Value)>) -> (v: serde_json::Value)
    requires
        distinct_keys(entries_of(members@)),
    ensures
        json_content(v) == Json::Object(object_of(entries_of(members@))),
{
    members.into_iter().collect()
}

} // verus!
