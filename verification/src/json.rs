//! JSON documents, and looking values up in them by a part of their key.

use crate::snapshot;
use crate::text::{self, contains_text, parse_i64, to_lower};
use vstd::prelude::*;

verus! {

/// A JSON number as the lookups read it.
#[derive(Debug, Clone, Copy, PartialEq, Eq, Structural)]
pub struct JsonNumber {
    /// The number, where it is an integer that fits.
    pub integer: Option<i64>,
    /// The nearest integer to it, ties away from zero, at the end of the range
    /// where it lies beyond.
    pub rounded: i64,
}

/// A JSON value. The members of an object stand in the order in which they are
/// walked.
#[derive(Debug)]
pub enum JsonValue {
    Null,
    Bool(bool),
    Number(JsonNumber),
    Text(String),
    Array(Vec<JsonValue>),
    Object(Vec<(String, JsonValue)>),
}

/// Whether a member named `candidate` is one that a lookup of `key` means: the
/// key occurs in the name, whatever the case of ASCII letters in either.
pub open spec fn key_matches(candidate: Seq<char>, key: Seq<char>) -> bool {
    text::occurs_in(text::lower(candidate), text::lower(key))
}

/// Whether a member named `candidate` is one that a lookup of `key` means.
pub fn candidate_matches_key(candidate: &str, key: &str) -> (matches: bool)
    ensures
        matches == key_matches(candidate@, key@),
{
    let name: String = to_lower(candidate);
    let sought: String = to_lower(key);
    contains_text(name.as_str(), sought.as_str())
}

/// A name that differs from the key in the case of its letters only matches it.
pub proof fn equal_names_match(candidate: Seq<char>, key: Seq<char>)
    requires
        text::lower(candidate) == text::lower(key),
    ensures
        key_matches(candidate, key),
{
    let name = text::lower(candidate);
    assert(name.subrange(0, name.len() as int) =~= name);
    assert(text::occurs_at(name, text::lower(key), 0));
}

/// The values in `value` whose member name matches `key`, in document order: a
/// value comes before what lies inside it.
pub open spec fn keyed_values(value: JsonValue, key: Seq<char>) -> Seq<JsonValue>
    decreases value,
{
    match value {
        JsonValue::Object(members) => member_values(members@, key),
        JsonValue::Array(items) => item_values(items@, key),
        _ => Seq::empty(),
    }
}

/// The values that match `key` among the members of an object and inside them.
pub open spec fn member_values(members: Seq<(String, JsonValue)>, key: Seq<char>) -> Seq<JsonValue>
    decreases members,
{
    if members.len() == 0 {
        Seq::empty()
    } else {
        let last = members[members.len() - 1];
        let own = if key_matches(last.0@, key) {
            seq![last.1]
        } else {
            Seq::empty()
        };
        member_values(members.drop_last(), key) + own + keyed_values(last.1, key)
    }
}

/// The values that match `key` inside the items of an array.
pub open spec fn item_values(items: Seq<JsonValue>, key: Seq<char>) -> Seq<JsonValue>
    decreases items,
{
    if items.len() == 0 {
        Seq::empty()
    } else {
        item_values(items.drop_last(), key) + keyed_values(items[items.len() - 1], key)
    }
}

/// Collects the values in `value` whose member name matches `key`.
fn collect_keyed<'a>(value: &'a JsonValue, key: &str, found: &mut Vec<&'a JsonValue>)
    ensures
        final(found)@.unref() == old(found)@.unref() + keyed_values(*value, key@),
    decreases value,
{
    let ghost before = found@.unref();
    match value {
        JsonValue::Object(members) => {
            let mut at: usize = 0;
            while at < members.len()
                invariant
                    *value == JsonValue::Object(*members),
                    at <= members.len(),
                    found@.unref() == before + member_values(members@.take(at as int), key@),
                decreases members.len() - at,
            {
                let member: &(String, JsonValue) = &members[at];
                let ghost so_far = members@.take(at + 1);
                assert(so_far.drop_last() =~= members@.take(at as int));
                let ghost entry = found@;
                if candidate_matches_key(member.0.as_str(), key) {
                    found.push(&member.1);
                    assert(found@.unref() =~= entry.unref().push(member.1));
                }
                assert(decreases_to!(*value => value->Object_0));
                assert(decreases_to!(value->Object_0 => value->Object_0@));
                assert(decreases_to!(members@ => members@[at as int]));
                assert(decreases_to!(members@[at as int] => members@[at as int].1));
                collect_keyed(&member.1, key, found);
                at = at + 1;
                assert(found@.unref() =~= before + member_values(so_far, key@));
            }
            assert(members@.take(at as int) =~= members@);
        },
        JsonValue::Array(items) => {
            let mut at: usize = 0;
            while at < items.len()
                invariant
                    *value == JsonValue::Array(*items),
                    at <= items.len(),
                    found@.unref() == before + item_values(items@.take(at as int), key@),
                decreases items.len() - at,
            {
                let ghost so_far = items@.take(at + 1);
                assert(so_far.drop_last() =~= items@.take(at as int));
                assert(decreases_to!(*value => value->Array_0));
                assert(decreases_to!(value->Array_0 => value->Array_0@));
                assert(decreases_to!(items@ => items@[at as int]));
                collect_keyed(&items[at], key, found);
                at = at + 1;
                assert(found@.unref() =~= before + item_values(so_far, key@));
            }
            assert(items@.take(at as int) =~= items@);
        },
        _ => {
            assert(found@.unref() =~= before + keyed_values(*value, key@));
        },
    }
}

/// The values in a document, if there is one, whose member name matches `key`.
pub open spec fn values_under(document: Option<&JsonValue>, key: Seq<char>) -> Seq<JsonValue> {
    match document {
        Some(value) => keyed_values(*value, key),
        None => Seq::empty(),
    }
}

/// The values in a document whose member name matches `key`.
fn values_by_key<'a>(document: Option<&'a JsonValue>, key: &str) -> (found: Vec<&'a JsonValue>)
    ensures
        found@.unref() == values_under(document, key@),
{
    let mut found: Vec<&'a JsonValue> = Vec::new();
    assert(found@.unref() =~= Seq::<JsonValue>::empty());
    if let Some(value) = document {
        collect_keyed(value, key, &mut found);
        assert(found@.unref() =~= keyed_values(*value, key@));
    }
    found
}

/// What `read` makes of the first value that it can read.
pub open spec fn first_read<A>(
    values: Seq<JsonValue>,
    read: spec_fn(JsonValue) -> Option<A>,
) -> Option<A>
    decreases values.len(),
{
    if values.len() == 0 {
        None
    } else if read(values[0]) is Some {
        read(values[0])
    } else {
        first_read(values.drop_first(), read)
    }
}

/// The first readable value decides, wherever it stands.
proof fn lemma_first_read_at<A>(
    values: Seq<JsonValue>,
    read: spec_fn(JsonValue) -> Option<A>,
    at: int,
)
    requires
        0 <= at < values.len(),
        read(values[at]) is Some,
        forall|i: int| 0 <= i < at ==> read(#[trigger] values[i]) is None,
    ensures
        first_read(values, read) == read(values[at]),
    decreases at,
{
    if at > 0 {
        assert(read(values[0]) is None);
        assert forall|i: int| 0 <= i < at - 1 implies read(
            #[trigger] values.drop_first()[i],
        ) is None by {
            assert(values.drop_first()[i] == values[i + 1]);
        }
        lemma_first_read_at(values.drop_first(), read, at - 1);
    }
}

/// Nothing is read where no value can be read, and only there.
proof fn lemma_first_read_none<A>(
    values: Seq<JsonValue>,
    read: spec_fn(JsonValue) -> Option<A>,
)
    ensures
        first_read(values, read) is None <==> (forall|i: int|
            0 <= i < values.len() ==> read(#[trigger] values[i]) is None),
    decreases values.len(),
{
    if values.len() > 0 {
        lemma_first_read_none(values.drop_first(), read);
        if forall|i: int| 0 <= i < values.len() ==> read(#[trigger] values[i]) is None {
            assert forall|i: int| 0 <= i < values.drop_first().len() implies read(
                #[trigger] values.drop_first()[i],
            ) is None by {
                assert(values.drop_first()[i] == values[i + 1]);
            }
        } else {
            let i = choose|i: int| 0 <= i < values.len() && read(#[trigger] values[i]) is Some;
            if i > 0 {
                assert(values.drop_first()[i - 1] == values[i]);
            }
        }
    }
}

/// A value as an integer: a number rounded where it has to be, a text where it
/// writes a number.
pub open spec fn integer_in(value: JsonValue) -> Option<i64> {
    match value {
        JsonValue::Number(number) => match number.integer {
            Some(integer) => Some(integer),
            None => Some(number.rounded),
        },
        JsonValue::Text(text) => text::parsed_i64(text@),
        _ => None,
    }
}

/// A number rounded to an integer; nothing of any other value.
pub open spec fn rounded_in(value: JsonValue) -> Option<i64> {
    match value {
        JsonValue::Number(number) => Some(number.rounded),
        _ => None,
    }
}

/// A value that is a text.
pub open spec fn text_in(value: JsonValue) -> Option<Seq<char>> {
    match value {
        JsonValue::Text(text) => Some(text@),
        _ => None,
    }
}

/// The texts among the items of an array.
pub open spec fn texts_among(items: Seq<JsonValue>) -> Seq<Seq<char>>
    decreases items.len(),
{
    if items.len() == 0 {
        Seq::empty()
    } else {
        let before = texts_among(items.drop_last());
        match text_in(items.last()) {
            Some(text) => before.push(text),
            None => before,
        }
    }
}

/// The texts in a value that is an array with at least one text in it.
pub open spec fn text_list_in(value: JsonValue) -> Option<Seq<Seq<char>>> {
    match value {
        JsonValue::Array(items) => if texts_among(items@).len() > 0 {
            Some(texts_among(items@))
        } else {
            None
        },
        _ => None,
    }
}

/// [`integer_in`] as a reader.
pub open spec fn integer_reader() -> spec_fn(JsonValue) -> Option<i64> {
    |value: JsonValue| integer_in(value)
}

/// [`rounded_in`] as a reader.
pub open spec fn rounded_reader() -> spec_fn(JsonValue) -> Option<i64> {
    |value: JsonValue| rounded_in(value)
}

/// [`text_in`] as a reader.
pub open spec fn text_reader() -> spec_fn(JsonValue) -> Option<Seq<char>> {
    |value: JsonValue| text_in(value)
}

/// [`text_list_in`] as a reader.
pub open spec fn text_list_reader() -> spec_fn(JsonValue) -> Option<Seq<Seq<char>>> {
    |value: JsonValue| text_list_in(value)
}

/// The integer that a lookup of `key` finds in a document.
pub open spec fn integer_under(document: Option<&JsonValue>, key: Seq<char>) -> Option<i64> {
    first_read(values_under(document, key), integer_reader())
}

/// The rounded number that a lookup of `key` finds in a document.
pub open spec fn rounded_under(document: Option<&JsonValue>, key: Seq<char>) -> Option<i64> {
    first_read(values_under(document, key), rounded_reader())
}

/// The text that a lookup of `key` finds in a document.
pub open spec fn text_under(document: Option<&JsonValue>, key: Seq<char>) -> Option<Seq<char>> {
    first_read(values_under(document, key), text_reader())
}

/// The list of texts that a lookup of `key` finds in a document.
pub open spec fn text_list_under(document: Option<&JsonValue>, key: Seq<char>) -> Option<
    Seq<Seq<char>>,
> {
    first_read(values_under(document, key), text_list_reader())
}

/// A value as an integer.
pub fn json_value_as_i64(value: &JsonValue) -> (integer: Option<i64>)
    ensures
        integer == integer_in(*value),
{
    match value {
        JsonValue::Number(number) => match number.integer {
            Some(integer) => Some(integer),
            None => Some(number.rounded),
        },
        JsonValue::Text(text) => parse_i64(text.as_str()),
        _ => None,
    }
}

/// Looks up an integer by key.
pub fn extract_i64_by_key(document: Option<&JsonValue>, key: &str) -> (found: Option<i64>)
    ensures
        found == integer_under(document, key@),
{
    let values: Vec<&JsonValue> = values_by_key(document, key);
    let mut at: usize = 0;
    while at < values.len()
        invariant
            at <= values.len(),
            values@.unref() == values_under(document, key@),
            forall|i: int|
                0 <= i < at ==> integer_reader()(#[trigger] values@.unref()[i]) is None,
        decreases values.len() - at,
    {
        let read: Option<i64> = json_value_as_i64(values[at]);
        assert(values@.unref()[at as int] == *values@[at as int]);
        if read.is_some() {
            proof {
                lemma_first_read_at(values@.unref(), integer_reader(), at as int);
            }
            return read;
        }
        at = at + 1;
    }
    proof {
        lemma_first_read_none(values@.unref(), integer_reader());
    }
    None
}

/// Looks up a number by key and rounds it.
pub fn extract_rounded_by_key(document: Option<&JsonValue>, key: &str) -> (found: Option<i64>)
    ensures
        found == rounded_under(document, key@),
{
    let values: Vec<&JsonValue> = values_by_key(document, key);
    let mut at: usize = 0;
    while at < values.len()
        invariant
            at <= values.len(),
            values@.unref() == values_under(document, key@),
            forall|i: int|
                0 <= i < at ==> rounded_reader()(#[trigger] values@.unref()[i]) is None,
        decreases values.len() - at,
    {
        assert(values@.unref()[at as int] == *values@[at as int]);
        if let JsonValue::Number(number) = values[at] {
            proof {
                lemma_first_read_at(values@.unref(), rounded_reader(), at as int);
            }
            return Some(number.rounded);
        }
        at = at + 1;
    }
    proof {
        lemma_first_read_none(values@.unref(), rounded_reader());
    }
    None
}

/// Looks up a text by key.
pub fn extract_string_by_key(document: Option<&JsonValue>, key: &str) -> (found: Option<String>)
    ensures
        snapshot::text_of(found) == text_under(document, key@),
{
    let values: Vec<&JsonValue> = values_by_key(document, key);
    let mut at: usize = 0;
    while at < values.len()
        invariant
            at <= values.len(),
            values@.unref() == values_under(document, key@),
            forall|i: int| 0 <= i < at ==> text_reader()(#[trigger] values@.unref()[i]) is None,
        decreases values.len() - at,
    {
        assert(values@.unref()[at as int] == *values@[at as int]);
        if let JsonValue::Text(text) = values[at] {
            proof {
                lemma_first_read_at(values@.unref(), text_reader(), at as int);
            }
            return Some(text.clone());
        }
        at = at + 1;
    }
    proof {
        lemma_first_read_none(values@.unref(), text_reader());
    }
    None
}

/// The texts among the items of an array.
fn collect_texts(items: &Vec<JsonValue>) -> (strings: Vec<String>)
    ensures
        text::texts(strings@) == texts_among(items@),
{
    let mut strings: Vec<String> = Vec::new();
    let mut at: usize = 0;
    assert(text::texts(strings@) =~= texts_among(items@.take(0)));
    while at < items.len()
        invariant
            at <= items.len(),
            text::texts(strings@) == texts_among(items@.take(at as int)),
        decreases items.len() - at,
    {
        let ghost before = strings@;
        assert(items@.take(at + 1).drop_last() =~= items@.take(at as int));
        if let JsonValue::Text(text) = &items[at] {
            strings.push(text.clone());
            assert(text::texts(strings@) =~= text::texts(before).push(text@));
        }
        at = at + 1;
    }
    assert(items@.take(at as int) =~= items@);
    strings
}

/// Looks up a list of texts by key.
pub fn extract_string_list_by_key(document: Option<&JsonValue>, key: &str) -> (found: Option<
    Vec<String>,
>)
    ensures
        found matches Some(strings) ==> text_list_under(document, key@) == Some(
            text::texts(strings@),
        ),
        found is None ==> text_list_under(document, key@) is None,
{
    let values: Vec<&JsonValue> = values_by_key(document, key);
    let mut at: usize = 0;
    while at < values.len()
        invariant
            at <= values.len(),
            values@.unref() == values_under(document, key@),
            forall|i: int|
                0 <= i < at ==> text_list_reader()(#[trigger] values@.unref()[i]) is None,
        decreases values.len() - at,
    {
        assert(values@.unref()[at as int] == *values@[at as int]);
        if let JsonValue::Array(items) = values[at] {
            let strings: Vec<String> = collect_texts(items);
            assert(text::texts(strings@).len() == strings@.len());
            if strings.len() > 0 {
                proof {
                    lemma_first_read_at(values@.unref(), text_list_reader(), at as int);
                }
                return Some(strings);
            }
        }
        at = at + 1;
    }
    proof {
        lemma_first_read_none(values@.unref(), text_list_reader());
    }
    None
}

/// Where a lookup finds a number to round, it also finds an integer: rounding is
/// never needed as a second attempt.
pub proof fn integer_lookup_covers_rounding(document: Option<&JsonValue>, key: Seq<char>)
    ensures
        rounded_under(document, key) is Some ==> integer_under(document, key) is Some,
{
    let values = values_under(document, key);
    lemma_first_read_none(values, rounded_reader());
    lemma_first_read_none(values, integer_reader());
    if rounded_under(document, key) is Some {
        let i = choose|i: int|
            0 <= i < values.len() && rounded_reader()(#[trigger] values[i]) is Some;
        assert(integer_reader()(values[i]) is Some);
    }
}

} // verus!
