//! What a lookup in a JSON document promises: what it finds, and what decides.

use crate::json::{self, JsonNumber, JsonValue};
use crate::text;
use vstd::prelude::*;

verus! {

/// A lookup means a member exactly if the key is a part of the member's name,
/// with whatever stands before and after it, the case of ASCII letters aside.
pub proof fn a_key_is_a_part_of_the_name(candidate: Seq<char>, key: Seq<char>)
    ensures
        json::key_matches(candidate, key) <==> exists|before: Seq<char>, after: Seq<char>|
            text::lower(candidate) == #[trigger] (before + text::lower(key) + after),
{
    let name = text::lower(candidate);
    let sought = text::lower(key);
    if json::key_matches(candidate, key) {
        let at = choose|at: int| text::occurs_at(name, sought, at);
        let before = name.take(at);
        let after = name.skip(at + sought.len());
        assert(name =~= before + name.subrange(at, at + sought.len()) + after);
    }
    if exists|before: Seq<char>, after: Seq<char>| name == #[trigger] (before + sought + after) {
        let (before, after) = choose|before: Seq<char>, after: Seq<char>|
            name == #[trigger] (before + sought + after);
        let at = before.len() as int;
        assert(name.subrange(at, at + sought.len()) =~= sought);
        assert(text::occurs_at(name, sought, at));
    }
}

/// Lower case keeps every character but the ASCII capitals, and moves each of these
/// to its small letter; doing it again changes nothing.
pub proof fn lower_case_is_letter_by_letter(given: Seq<char>)
    ensures
        text::lower(given).len() == given.len(),
        forall|i: int|
            0 <= i < given.len() && 65 <= (#[trigger] given[i]) as int <= 90 ==> (text::lower(
                given,
            )[i]) as int - 97 == (given[i]) as int - 65,
        forall|i: int|
            0 <= i < given.len() && !(65 <= (#[trigger] given[i]) as int <= 90) ==> text::lower(
                given,
            )[i] == given[i],
        text::lower(text::lower(given)) == text::lower(given),
{
    let once = text::lower(given);
    assert forall|i: int| 0 <= i < given.len() implies text::lower(once)[i] == #[trigger] once[i]
        by {
        let ch = given[i];
    }
    assert(text::lower(once) =~= once);
}

/// Whether `sought` stands somewhere in `value` as a member whose name matches
/// `key`, however deep.
pub open spec fn stands_under(value: JsonValue, key: Seq<char>, sought: JsonValue) -> bool
    decreases value,
{
    match value {
        JsonValue::Object(members) => exists|i: int|
            0 <= i < members@.len() && {
                ||| json::key_matches((#[trigger] members@[i]).0@, key) && members@[i].1 == sought
                ||| stands_under(members@[i].1, key, sought)
            },
        JsonValue::Array(items) => exists|i: int|
            0 <= i < items@.len() && stands_under(#[trigger] items@[i], key, sought),
        _ => false,
    }
}

/// A lookup finds the values that stand in the document under a matching name,
/// however deep, and no others.
pub proof fn a_lookup_finds_what_stands_under_the_key(
    value: JsonValue,
    key: Seq<char>,
    sought: JsonValue,
)
    ensures
        json::keyed_values(value, key).contains(sought) <==> stands_under(value, key, sought),
    decreases value,
{
    match value {
        JsonValue::Object(members) => {
            assert forall|i: int| 0 <= i < members@.len() implies (json::keyed_values(
                (#[trigger] members@[i]).1,
                key,
            ).contains(sought) <==> stands_under(members@[i].1, key, sought)) by {
                assert(decreases_to!(value => value->Object_0));
                assert(decreases_to!(value->Object_0 => value->Object_0@));
                assert(decreases_to!(members@ => members@[i]));
                assert(decreases_to!(members@[i] => members@[i].1));
                a_lookup_finds_what_stands_under_the_key(members@[i].1, key, sought);
            }
            lemma_members_found(members@, key, sought);
        },
        JsonValue::Array(items) => {
            assert forall|i: int| 0 <= i < items@.len() implies (json::keyed_values(
                #[trigger] items@[i],
                key,
            ).contains(sought) <==> stands_under(items@[i], key, sought)) by {
                assert(decreases_to!(value => value->Array_0));
                assert(decreases_to!(value->Array_0 => value->Array_0@));
                assert(decreases_to!(items@ => items@[i]));
                a_lookup_finds_what_stands_under_the_key(items@[i], key, sought);
            }
            lemma_items_found(items@, key, sought);
        },
        _ => {},
    }
}

proof fn lemma_contains_sum(a: Seq<JsonValue>, b: Seq<JsonValue>, sought: JsonValue)
    ensures
        (a + b).contains(sought) <==> a.contains(sought) || b.contains(sought),
{
    if a.contains(sought) {
        let i = choose|i: int| 0 <= i < a.len() && a[i] == sought;
        assert((a + b)[i] == sought);
    }
    if b.contains(sought) {
        let i = choose|i: int| 0 <= i < b.len() && b[i] == sought;
        assert((a + b)[a.len() + i] == sought);
    }
}

proof fn lemma_members_found(
    members: Seq<(String, JsonValue)>,
    key: Seq<char>,
    sought: JsonValue,
)
    ensures
        json::member_values(members, key).contains(sought) <==> exists|i: int|
            0 <= i < members.len() && {
                ||| json::key_matches((#[trigger] members[i]).0@, key) && members[i].1 == sought
                ||| json::keyed_values(members[i].1, key).contains(sought)
            },
    decreases members.len(),
{
    if members.len() > 0 {
        let before = members.drop_last();
        let last = members.last();
        let own = if json::key_matches(last.0@, key) {
            seq![last.1]
        } else {
            Seq::empty()
        };
        lemma_members_found(before, key, sought);
        lemma_contains_sum(json::member_values(before, key), own, sought);
        lemma_contains_sum(
            json::member_values(before, key) + own,
            json::keyed_values(last.1, key),
            sought,
        );
        if own.contains(sought) {
            assert(own[0] == sought);
        }
        if json::key_matches(last.0@, key) && last.1 == sought {
            assert(own[0] == sought);
        }
        if json::member_values(before, key).contains(sought) {
            let i = choose|i: int|
                0 <= i < before.len() && {
                    ||| json::key_matches((#[trigger] before[i]).0@, key) && before[i].1 == sought
                    ||| json::keyed_values(before[i].1, key).contains(sought)
                };
            assert(members[i] == before[i]);
        }
        assert(members[members.len() - 1] == last);
        assert forall|i: int|
            0 <= i < members.len() && {
                ||| json::key_matches((#[trigger] members[i]).0@, key) && members[i].1 == sought
                ||| json::keyed_values(members[i].1, key).contains(sought)
            } implies json::member_values(members, key).contains(sought) by {
            if i < before.len() {
                assert(before[i] == members[i]);
            }
        }
    }
}

proof fn lemma_items_found(items: Seq<JsonValue>, key: Seq<char>, sought: JsonValue)
    ensures
        json::item_values(items, key).contains(sought) <==> exists|i: int|
            0 <= i < items.len() && json::keyed_values(#[trigger] items[i], key).contains(sought),
    decreases items.len(),
{
    if items.len() > 0 {
        let before = items.drop_last();
        lemma_items_found(before, key, sought);
        lemma_contains_sum(
            json::item_values(before, key),
            json::keyed_values(items.last(), key),
            sought,
        );
        if json::item_values(before, key).contains(sought) {
            let i = choose|i: int|
                0 <= i < before.len() && json::keyed_values(#[trigger] before[i], key).contains(
                    sought,
                );
            assert(items[i] == before[i]);
        }
        assert forall|i: int|
            0 <= i < items.len() && json::keyed_values(#[trigger] items[i], key).contains(
                sought,
            ) implies json::item_values(items, key).contains(sought) by {
            if i < before.len() {
                assert(before[i] == items[i]);
            }
        }
    }
}

/// The values of one part of an object come before those of the part after it.
pub proof fn earlier_members_are_found_first(
    earlier: Seq<(String, JsonValue)>,
    later: Seq<(String, JsonValue)>,
    key: Seq<char>,
)
    ensures
        json::member_values(earlier + later, key) == json::member_values(earlier, key)
            + json::member_values(later, key),
    decreases later.len(),
{
    if later.len() == 0 {
        assert(earlier + later =~= earlier);
        assert(json::member_values(earlier, key) + Seq::<JsonValue>::empty()
            =~= json::member_values(earlier, key));
    } else {
        earlier_members_are_found_first(earlier, later.drop_last(), key);
        assert((earlier + later).drop_last() =~= earlier + later.drop_last());
        assert((earlier + later).last() == later.last());
        let last = later.last();
        let own = if json::key_matches(last.0@, key) {
            seq![last.1]
        } else {
            Seq::empty()
        };
        assert(json::member_values(earlier + later, key) =~= json::member_values(earlier, key) + (
        json::member_values(later.drop_last(), key) + own + json::keyed_values(last.1, key)));
    }
}

/// The values of one part of an array come before those of the part after it.
pub proof fn earlier_items_are_found_first(
    earlier: Seq<JsonValue>,
    later: Seq<JsonValue>,
    key: Seq<char>,
)
    ensures
        json::item_values(earlier + later, key) == json::item_values(earlier, key)
            + json::item_values(later, key),
    decreases later.len(),
{
    if later.len() == 0 {
        assert(earlier + later =~= earlier);
        assert(json::item_values(earlier, key) + Seq::<JsonValue>::empty() =~= json::item_values(
            earlier,
            key,
        ));
    } else {
        earlier_items_are_found_first(earlier, later.drop_last(), key);
        assert((earlier + later).drop_last() =~= earlier + later.drop_last());
        assert((earlier + later).last() == later.last());
        assert(json::item_values(earlier + later, key) =~= json::item_values(earlier, key) + (
        json::item_values(later.drop_last(), key) + json::keyed_values(later.last(), key)));
    }
}

/// In an object the first member whose name matches is the first value found,
/// provided that the members before it hold no match inside them.
pub proof fn the_first_matching_member_is_found_first(
    members: Vec<(String, JsonValue)>,
    key: Seq<char>,
    at: int,
)
    requires
        0 <= at < members@.len(),
        json::key_matches(members@[at].0@, key),
        forall|i: int|
            0 <= i < at ==> !json::key_matches((#[trigger] members@[i]).0@, key)
                && json::keyed_values(members@[i].1, key).len() == 0,
    ensures
        ({
            let found = json::values_under(Some(&JsonValue::Object(members)), key);
            found.len() > 0 && found[0] == members@[at].1
        }),
{
    let all = members@;
    lemma_nothing_found(all.take(at), key);
    assert(all =~= all.take(at) + all.skip(at));
    earlier_members_are_found_first(all.take(at), all.skip(at), key);
    assert(all.skip(at) =~= seq![all[at]] + all.skip(at + 1));
    earlier_members_are_found_first(seq![all[at]], all.skip(at + 1), key);
    let first = seq![all[at]];
    assert(first.drop_last() =~= Seq::empty());
    assert(json::member_values(first.drop_last(), key) =~= Seq::empty());
    assert(json::member_values(first, key)[0] == all[at].1);
}

/// Members that neither match nor hold a match yield nothing.
proof fn lemma_nothing_found(members: Seq<(String, JsonValue)>, key: Seq<char>)
    requires
        forall|i: int|
            0 <= i < members.len() ==> !json::key_matches((#[trigger] members[i]).0@, key)
                && json::keyed_values(members[i].1, key).len() == 0,
    ensures
        json::member_values(members, key).len() == 0,
    decreases members.len(),
{
    if members.len() > 0 {
        let before = members.drop_last();
        assert forall|i: int| 0 <= i < before.len() implies !json::key_matches(
            (#[trigger] before[i]).0@,
            key,
        ) && json::keyed_values(before[i].1, key).len() == 0 by {
            assert(before[i] == members[i]);
        }
        lemma_nothing_found(before, key);
        assert(members[members.len() - 1] == members.last());
    }
}

/// What an integer lookup reads of a value: an integer as it is, any other number
/// by its nearest integer, a text by the number that it writes, nothing else.
pub proof fn an_integer_is_read_as_it_is(number: JsonNumber, n: i64, written: String)
    requires
        written@ == text::decimal(n as int),
    ensures
        number.integer == Some(n) ==> json::integer_in(JsonValue::Number(number)) == Some(n),
        number.integer is None ==> json::integer_in(JsonValue::Number(number)) == Some(
            number.rounded,
        ),
        json::integer_in(JsonValue::Text(written)) == Some(n),
        forall|value: JsonValue|
            value is Text ==> #[trigger] json::integer_in(value) == text::parsed_i64(
                value->Text_0@,
            ),
        forall|value: JsonValue|
            !(value is Number) && !(value is Text) ==> (#[trigger] json::integer_in(value)) is None,
{
    text::decimal_reads_back(n);
}

/// Whether a reader can read none of the values before `upto`.
spec fn unread<A>(
    read: spec_fn(JsonValue) -> Option<A>,
    values: Seq<JsonValue>,
    upto: int,
) -> bool {
    forall|i: int| 0 <= i < upto ==> read(#[trigger] values[i]) is None
}

proof fn lemma_first_decides<A>(
    values: Seq<JsonValue>,
    read: spec_fn(JsonValue) -> Option<A>,
    at: int,
)
    requires
        0 <= at <= values.len(),
        unread(read, values, at),
        at < values.len() ==> read(values[at]) is Some,
    ensures
        json::first_read(values, read) == if at < values.len() {
            read(values[at])
        } else {
            None
        },
    decreases at,
{
    if at > 0 {
        assert(read(values[0]) is None);
        let rest = values.drop_first();
        assert forall|i: int| 0 <= i < at - 1 implies read(#[trigger] rest[i]) is None by {
            assert(rest[i] == values[i + 1]);
        }
        lemma_first_decides(rest, read, at - 1);
    }
}

/// Of the values found, an integer lookup takes the first that it can read, and
/// nothing where it can read none.
pub proof fn the_first_integer_decides(document: Option<&JsonValue>, key: Seq<char>, at: int)
    requires
        0 <= at <= json::values_under(document, key).len(),
        forall|i: int|
            0 <= i < at ==> json::integer_in(#[trigger] json::values_under(document, key)[i])
                is None,
        at < json::values_under(document, key).len() ==> json::integer_in(
            json::values_under(document, key)[at],
        ) is Some,
    ensures
        json::integer_under(document, key) == if at < json::values_under(document, key).len() {
            json::integer_in(json::values_under(document, key)[at])
        } else {
            None
        },
{
    let values = json::values_under(document, key);
    assert(unread(json::integer_reader(), values, at));
    lemma_first_decides(values, json::integer_reader(), at);
}

/// Of the values found, a rounded lookup takes the first number, and nothing
/// where there is none.
pub proof fn the_first_number_decides(document: Option<&JsonValue>, key: Seq<char>, at: int)
    requires
        0 <= at <= json::values_under(document, key).len(),
        forall|i: int|
            0 <= i < at ==> !((#[trigger] json::values_under(document, key)[i]) is Number),
        at < json::values_under(document, key).len() ==> json::values_under(document, key)[at]
            is Number,
    ensures
        json::rounded_under(document, key) == if at < json::values_under(document, key).len() {
            Some(json::values_under(document, key)[at]->Number_0.rounded)
        } else {
            None
        },
{
    let values = json::values_under(document, key);
    assert(unread(json::rounded_reader(), values, at));
    lemma_first_decides(values, json::rounded_reader(), at);
}

/// Of the values found, a text lookup takes the first text, and nothing where
/// there is none.
pub proof fn the_first_text_decides(document: Option<&JsonValue>, key: Seq<char>, at: int)
    requires
        0 <= at <= json::values_under(document, key).len(),
        forall|i: int|
            0 <= i < at ==> !((#[trigger] json::values_under(document, key)[i]) is Text),
        at < json::values_under(document, key).len() ==> json::values_under(document, key)[at]
            is Text,
    ensures
        json::text_under(document, key) == if at < json::values_under(document, key).len() {
            Some(json::values_under(document, key)[at]->Text_0@)
        } else {
            None
        },
{
    let values = json::values_under(document, key);
    assert(unread(json::text_reader(), values, at));
    lemma_first_decides(values, json::text_reader(), at);
}

/// Whether an array of JSON values holds a text.
pub open spec fn has_text(value: JsonValue) -> bool {
    value matches JsonValue::Array(items) && exists|i: int|
        0 <= i < items@.len() && (#[trigger] items@[i]) is Text
}

/// Of the values found, a lookup of a list takes the first array that holds a
/// text, and nothing where there is none. An array of texts gives all of them, in
/// their order.
pub proof fn the_first_list_decides(document: Option<&JsonValue>, key: Seq<char>, at: int)
    requires
        0 <= at <= json::values_under(document, key).len(),
        forall|i: int|
            0 <= i < at ==> !has_text(#[trigger] json::values_under(document, key)[i]),
        at < json::values_under(document, key).len() ==> has_text(
            json::values_under(document, key)[at],
        ),
    ensures
        at == json::values_under(document, key).len() ==> json::text_list_under(document, key)
            is None,
        at < json::values_under(document, key).len() ==> {
            let items = json::values_under(document, key)[at]->Array_0@;
            &&& json::text_list_under(document, key) is Some
            &&& json::text_list_under(document, key)->0 == json::texts_among(items)
            &&& (forall|i: int| 0 <= i < items.len() ==> (#[trigger] items[i]) is Text) ==> {
                let list = json::text_list_under(document, key)->0;
                &&& list.len() == items.len()
                &&& forall|i: int|
                    0 <= i < items.len() ==> list[i] == (#[trigger] items[i])->Text_0@
            }
        },
{
    let values = json::values_under(document, key);
    assert forall|value: JsonValue| #![trigger has_text(value)]
        has_text(value) == (json::text_list_in(value) is Some) by {
        if value is Array {
            let items = value->Array_0@;
            lemma_texts_among(items);
        }
    }
    assert forall|i: int| 0 <= i < at implies (json::text_list_reader())(#[trigger] values[i])
        is None by {
        assert(!has_text(values[i]));
    }
    lemma_first_decides(values, json::text_list_reader(), at);
    if at < values.len() {
        lemma_texts_among(values[at]->Array_0@);
    }
}

proof fn lemma_texts_among(items: Seq<JsonValue>)
    ensures
        json::texts_among(items).len() > 0 <==> exists|i: int|
            0 <= i < items.len() && (#[trigger] items[i]) is Text,
        (forall|i: int| 0 <= i < items.len() ==> (#[trigger] items[i]) is Text) ==> {
            &&& json::texts_among(items).len() == items.len()
            &&& forall|i: int|
                0 <= i < items.len() ==> json::texts_among(items)[i] == (
                #[trigger] items[i])->Text_0@
        },
    decreases items.len(),
{
    if items.len() > 0 {
        let before = items.drop_last();
        lemma_texts_among(before);
        assert(items[items.len() - 1] == items.last());
        if exists|i: int| 0 <= i < before.len() && (#[trigger] before[i]) is Text {
            let i = choose|i: int| 0 <= i < before.len() && (#[trigger] before[i]) is Text;
            assert(items[i] is Text);
        }
        if exists|i: int| 0 <= i < items.len() && (#[trigger] items[i]) is Text {
            let i = choose|i: int| 0 <= i < items.len() && (#[trigger] items[i]) is Text;
            if i < before.len() {
                assert(before[i] is Text);
            }
        }
        if forall|i: int| 0 <= i < items.len() ==> (#[trigger] items[i]) is Text {
            assert forall|i: int| 0 <= i < before.len() implies (#[trigger] before[i]) is Text by {
                assert(items[i] is Text);
            }
            assert forall|i: int| 0 <= i < items.len() implies json::texts_among(items)[i] == (
            #[trigger] items[i])->Text_0@ by {
                if i < before.len() {
                    assert(before[i] == items[i]);
                }
            }
        }
    }
}

/// Putting a document into a list or under a name that does not match changes
/// nothing of what is found in it.
pub proof fn depth_does_not_matter(
    value: JsonValue,
    key: Seq<char>,
    list: Vec<JsonValue>,
    object: Vec<(String, JsonValue)>,
)
    requires
        list@ == seq![value],
        object@.len() == 1,
        object@[0].1 == value,
        !json::key_matches(object@[0].0@, key),
    ensures
        json::keyed_values(JsonValue::Array(list), key) == json::keyed_values(value, key),
        json::keyed_values(JsonValue::Object(object), key) == json::keyed_values(value, key),
{
    assert(list@.drop_last() =~= Seq::empty());
    assert(json::item_values(list@.drop_last(), key) =~= Seq::empty());
    assert(json::item_values(list@, key) =~= json::keyed_values(value, key));
    assert(object@.drop_last() =~= Seq::empty());
    assert(json::member_values(object@.drop_last(), key) =~= Seq::empty());
    assert(json::member_values(object@, key) =~= json::keyed_values(value, key));
}

/// The texts among items are those items that are texts, in their order; whatever else
/// stands between them is left out.
pub proof fn texts_are_kept_in_order(
    earlier: Seq<JsonValue>,
    later: Seq<JsonValue>,
    item: JsonValue,
)
    ensures
        json::texts_among(earlier + later) == json::texts_among(earlier) + json::texts_among(later),
        item matches JsonValue::Text(known) ==> json::texts_among(seq![item]) == seq![known@],
        !(item is Text) ==> json::texts_among(seq![item]).len() == 0,
    decreases later.len(),
{
    let alone = seq![item];
    assert(alone.drop_last() =~= Seq::empty());
    assert(json::texts_among(alone.drop_last()) =~= Seq::empty());
    if let JsonValue::Text(known) = item {
        assert(json::texts_among(alone) =~= seq![known@]);
    }
    if later.len() == 0 {
        assert(earlier + later =~= earlier);
        assert(json::texts_among(earlier) + json::texts_among(later) =~= json::texts_among(
            earlier,
        ));
    } else {
        texts_are_kept_in_order(earlier, later.drop_last(), item);
        assert((earlier + later).drop_last() =~= earlier + later.drop_last());
        assert((earlier + later).last() == later.last());
        assert(json::texts_among(earlier + later) =~= json::texts_among(earlier)
            + json::texts_among(later));
    }
}

} // verus!
