//! What the signal figures promise: each is what the document holds under its own
//! name.

use crate::json::{self, JsonValue};
use crate::lookup_laws;
use crate::rows;
use crate::text;
use vstd::prelude::*;
use vstd::string::*;

verus! {

/// Whether the first value found under `key` is the integer `n`.
pub open spec fn leads_with(document: Option<&JsonValue>, key: Seq<char>, n: i64) -> bool {
    let found = json::values_under(document, key);
    found.len() > 0 && (found[0] matches JsonValue::Number(number) && number.integer == Some(n))
}

/// Whether a document has nothing that could be a number under `key`.
pub open spec fn lacks(document: Option<&JsonValue>, key: Seq<char>) -> bool {
    let found = json::values_under(document, key);
    forall|i: int|
        0 <= i < found.len() ==> !((#[trigger] found[i]) is Number) && !(found[i] is Text)
}

/// Each figure is the integer that the document holds under that figure's name,
/// and a figure that it does not hold is not made up. There are figures exactly if
/// the document holds one of them.
pub proof fn each_figure_is_found_under_its_own_name(document: Option<&JsonValue>)
    ensures
        forall|n: i64| #[trigger]
            leads_with(document, "rsrp"@, n) ==> rows::signal_figures(document) is Some
                && rows::signal_figures(document)->0.rsrp == Some(n),
        lacks(document, "rsrp"@) ==> (rows::signal_figures(document) matches Some(figures)
            ==> figures.rsrp is None),
        forall|n: i64| #[trigger]
            leads_with(document, "rsrq"@, n) ==> rows::signal_figures(document) is Some
                && rows::signal_figures(document)->0.rsrq == Some(n),
        lacks(document, "rsrq"@) ==> (rows::signal_figures(document) matches Some(figures)
            ==> figures.rsrq is None),
        forall|n: i64| #[trigger]
            leads_with(document, "rssi"@, n) ==> rows::signal_figures(document) is Some
                && rows::signal_figures(document)->0.rssi == Some(n),
        lacks(document, "rssi"@) ==> (rows::signal_figures(document) matches Some(figures)
            ==> figures.rssi is None),
        forall|n: i64| #[trigger]
            leads_with(document, "sinr"@, n) ==> rows::signal_figures(document) is Some
                && rows::signal_figures(document)->0.sinr == Some(n),
        lacks(document, "sinr"@) ==> (rows::signal_figures(document) matches Some(figures)
            ==> figures.sinr is None),
        forall|n: i64| #[trigger]
            leads_with(document, "cqi"@, n) ==> rows::signal_figures(document) is Some
                && rows::signal_figures(document)->0.cqi == Some(n),
        lacks(document, "cqi"@) ==> (rows::signal_figures(document) matches Some(figures)
            ==> figures.cqi is None),
        rows::signal_figures(document) matches Some(figures) ==> {
            &&& figures.rsrp == json::integer_under(document, "rsrp"@)
            &&& figures.rsrq == json::integer_under(document, "rsrq"@)
            &&& figures.rssi == json::integer_under(document, "rssi"@)
            &&& figures.sinr == json::integer_under(document, "sinr"@)
            &&& figures.cqi == json::integer_under(document, "cqi"@)
        },
        rows::signal_figures(document) is None <==> {
            &&& json::integer_under(document, "rsrp"@) is None
            &&& json::integer_under(document, "rsrq"@) is None
            &&& json::integer_under(document, "rssi"@) is None
            &&& json::integer_under(document, "sinr"@) is None
            &&& json::integer_under(document, "cqi"@) is None
        },
{
    lemma_one_figure(document, "rsrp"@);
    lemma_one_figure(document, "rsrq"@);
    lemma_one_figure(document, "rssi"@);
    lemma_one_figure(document, "sinr"@);
    lemma_one_figure(document, "cqi"@);
}

proof fn lemma_one_figure(document: Option<&JsonValue>, key: Seq<char>)
    ensures
        forall|n: i64| #[trigger]
            leads_with(document, key, n) ==> json::integer_under(document, key) == Some(n),
        lacks(document, key) ==> json::integer_under(document, key) is None,
{
    let found = json::values_under(document, key);
    if found.len() > 0 && json::integer_in(found[0]) is Some {
        lookup_laws::the_first_integer_decides(document, key, 0);
    }
    if lacks(document, key) {
        lookup_laws::the_first_integer_decides(document, key, found.len() as int);
    }
}

/// A figure depends on what stands under its own name alone: two documents that
/// hold the same under it give the same figure, whatever else they hold.
pub proof fn a_figure_depends_on_its_own_name(one: Option<&JsonValue>, other: Option<&JsonValue>)
    requires
        rows::signal_figures(one) is Some,
        rows::signal_figures(other) is Some,
    ensures
        ({
            let left = rows::signal_figures(one)->0;
            let right = rows::signal_figures(other)->0;
            &&& json::values_under(one, "rsrp"@) == json::values_under(other, "rsrp"@) ==> left.rsrp
                == right.rsrp
            &&& json::values_under(one, "rsrq"@) == json::values_under(other, "rsrq"@) ==> left.rsrq
                == right.rsrq
            &&& json::values_under(one, "rssi"@) == json::values_under(other, "rssi"@) ==> left.rssi
                == right.rssi
            &&& json::values_under(one, "sinr"@) == json::values_under(other, "sinr"@) ==> left.sinr
                == right.sinr
            &&& json::values_under(one, "cqi"@) == json::values_under(other, "cqi"@) ==> left.cqi
                == right.cqi
        }),
{
}

/// Whether a name is the name of one of the figures.
pub open spec fn names_a_figure(name: Seq<char>) -> bool {
    ||| name == "rsrp"@
    ||| name == "rsrq"@
    ||| name == "rssi"@
    ||| name == "sinr"@
    ||| name == "cqi"@
}

/// Whether a name means none of the figures to a lookup.
pub open spec fn means_no_figure(name: Seq<char>) -> bool {
    &&& !json::key_matches(name, "rsrp"@)
    &&& !json::key_matches(name, "rsrq"@)
    &&& !json::key_matches(name, "rssi"@)
    &&& !json::key_matches(name, "sinr"@)
    &&& !json::key_matches(name, "cqi"@)
}

/// Whether an object holds numbers only, and no figure twice; it may hold other
/// numbers.
pub open spec fn plain_report(members: Seq<(String, JsonValue)>) -> bool {
    &&& forall|i: int|
        0 <= i < members.len() ==> (names_a_figure((#[trigger] members[i]).0@) || means_no_figure(
            members[i].0@,
        )) && members[i].1 is Number && members[i].1->Number_0.integer is Some
    &&& forall|i: int, j: int|
        0 <= i < j < members.len() && names_a_figure((#[trigger] members[i]).0@) ==> (
        #[trigger] members[j]).0@ != members[i].0@
}

/// Whether `figure` is what an object holds under `name`: nothing where it has no
/// such member, else that member's integer.
pub open spec fn is_member(
    members: Seq<(String, JsonValue)>,
    name: Seq<char>,
    figure: Option<i64>,
) -> bool {
    &&& forall|i: int|
        0 <= i < members.len() && (#[trigger] members[i]).0@ == name ==> figure
            == members[i].1->Number_0.integer
    &&& (forall|i: int| 0 <= i < members.len() ==> (#[trigger] members[i]).0@ != name)
        ==> figure is None
}

/// In a plain report, whatever the order of its members, each figure is the integer
/// of the member that has that figure's name.
pub proof fn a_plain_report_gives_its_figures(members: Vec<(String, JsonValue)>)
    requires
        plain_report(members@),
    ensures
        ({
            let figures = rows::signal_figures(Some(&JsonValue::Object(members)));
            &&& figures is None <==> forall|i: int|
                0 <= i < members@.len() ==> !names_a_figure((#[trigger] members@[i]).0@)
            &&& figures matches Some(known) ==> {
                &&& is_member(members@, "rsrp"@, known.rsrp)
                &&& is_member(members@, "rsrq"@, known.rsrq)
                &&& is_member(members@, "rssi"@, known.rssi)
                &&& is_member(members@, "sinr"@, known.sinr)
                &&& is_member(members@, "cqi"@, known.cqi)
            }
        }),
{
    let document = Some(&JsonValue::Object(members));
    lemma_plain_figure(members, "rsrp"@);
    lemma_plain_figure(members, "rsrq"@);
    lemma_plain_figure(members, "rssi"@);
    lemma_plain_figure(members, "sinr"@);
    lemma_plain_figure(members, "cqi"@);
    if exists|i: int| 0 <= i < members@.len() && names_a_figure((#[trigger] members@[i]).0@) {
        let i = choose|i: int|
            0 <= i < members@.len() && names_a_figure((#[trigger] members@[i]).0@);
        assert(json::integer_under(document, members@[i].0@) is Some);
    }
}

proof fn lemma_plain_figure(members: Vec<(String, JsonValue)>, key: Seq<char>)
    requires
        plain_report(members@),
        names_a_figure(key),
    ensures
        is_member(
            members@,
            key,
            json::integer_under(Some(&JsonValue::Object(members)), key),
        ),
{
    let document = Some(&JsonValue::Object(members));
    let found = json::values_under(document, key);
    assert forall|i: int| 0 <= i < members@.len() implies (json::key_matches(
        (#[trigger] members@[i]).0@,
        key,
    ) <==> members@[i].0@ == key) by {
        if names_a_figure(members@[i].0@) {
            lemma_figure_names(members@[i].0@, key);
        } else {
            lemma_figure_names(key, key);
        }
    }
    if exists|i: int| 0 <= i < members@.len() && (#[trigger] members@[i]).0@ == key {
        let at = choose|i: int| 0 <= i < members@.len() && (#[trigger] members@[i]).0@ == key;
        assert forall|i: int| 0 <= i < at implies !json::key_matches(
            (#[trigger] members@[i]).0@,
            key,
        ) && json::keyed_values(members@[i].1, key).len() == 0 by {
            assert(members@[at].0@ == key);
            assert(members@[i].1 is Number);
        }
        lookup_laws::the_first_matching_member_is_found_first(members, key, at);
        lookup_laws::the_first_integer_decides(document, key, 0);
        assert forall|i: int|
            0 <= i < members@.len() && (#[trigger] members@[i]).0@ == key implies i == at by {
            assert(names_a_figure(members@[at].0@));
        }
    } else {
        assert forall|sought: JsonValue| !json::keyed_values(*document->0, key).contains(sought)
            by {
            lookup_laws::a_lookup_finds_what_stands_under_the_key(*document->0, key, sought);
            assert forall|i: int| 0 <= i < members@.len() implies !lookup_laws::stands_under(
                (#[trigger] members@[i]).1,
                key,
                sought,
            ) by {
                assert(members@[i].1 is Number);
            }
        }
        if found.len() > 0 {
            assert(found.contains(found[0]));
        }
        lookup_laws::the_first_integer_decides(document, key, 0);
    }
}

/// No figure's name is a part of another's.
proof fn lemma_figure_names(name: Seq<char>, key: Seq<char>)
    requires
        names_a_figure(name),
        names_a_figure(key),
    ensures
        json::key_matches(name, key) <==> name == key,
{
    reveal_strlit("rsrp");
    reveal_strlit("rsrq");
    reveal_strlit("rssi");
    reveal_strlit("sinr");
    reveal_strlit("cqi");
    assert(text::lower(name) =~= name);
    assert(text::lower(key) =~= key);
    if name == key {
        json::equal_names_match(name, key);
    }
    if json::key_matches(name, key) {
        let at = choose|at: int| text::occurs_at(name, key, at);
        if name.len() == key.len() {
            assert(name.subrange(0, name.len() as int) =~= name);
        } else {
            assert(key == "cqi"@);
            assert(name.subrange(at, at + 3)[0] == name[at]);
        }
    }
}

} // verus!
