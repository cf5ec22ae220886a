//! What texts promise: how numbers are written and read, and how texts are found and
//! joined.

use crate::text;
use vstd::prelude::*;
use vstd::string::*;

verus! {

/// One text stands in another exactly if the other is something before it, it, and
/// something after it.
pub proof fn a_part_stands_between_the_rest(whole: Seq<char>, part: Seq<char>)
    ensures
        text::occurs_in(whole, part) <==> exists|before: Seq<char>, after: Seq<char>|
            whole == #[trigger] (before + part + after),
{
    if text::occurs_in(whole, part) {
        let at = choose|at: int| text::occurs_at(whole, part, at);
        let before = whole.take(at);
        let after = whole.skip(at + part.len());
        assert(whole =~= before + whole.subrange(at, at + part.len()) + after);
    }
    if exists|before: Seq<char>, after: Seq<char>| whole == #[trigger] (before + part + after) {
        let (before, after) = choose|before: Seq<char>, after: Seq<char>|
            whole == #[trigger] (before + part + after);
        let at = before.len() as int;
        assert(whole.subrange(at, at + part.len()) =~= part);
        assert(text::occurs_at(whole, part, at));
    }
}

/// Whether a character is a decimal digit of the given value.
pub open spec fn is_digit_of(ch: char, value: int) -> bool {
    0 <= value <= 9 && ch as int == 48 + value
}

/// A number is written digit by digit, the last for the ones: one more digit makes it
/// ten times the number and the digit. Below ten it is that digit alone, and a negative
/// number is its magnitude behind a minus sign. There are no leading zeros.
pub proof fn numbers_are_written_digit_by_digit(n: nat, digit: nat)
    requires
        digit < 10,
    ensures
        text::decimal(digit as int).len() == 1,
        is_digit_of(text::decimal(digit as int)[0], digit as int),
        n > 0 ==> {
            let longer = text::decimal((10 * n + digit) as int);
            &&& longer.len() == text::decimal(n as int).len() + 1
            &&& longer.drop_last() == text::decimal(n as int)
            &&& is_digit_of(longer.last(), digit as int)
        },
        n > 0 ==> text::decimal(-n) == seq!['-'] + text::decimal(n as int),
        n > 0 ==> text::decimal(n as int)[0] != '0',
        text::decimal_nat(n) == text::decimal(n as int),
{
    if n > 0 {
        let whole = (10 * n + digit) as nat;
        assert(whole / 10 == n && whole % 10 == digit);
        assert(text::decimal(whole as int).drop_last() =~= text::decimal(n as int));
        lemma_no_leading_zero(n);
    }
}

proof fn lemma_no_leading_zero(n: nat)
    requires
        n > 0,
    ensures
        text::decimal_nat(n).len() > 0,
        text::decimal_nat(n)[0] != '0',
    decreases n,
{
    if n >= 10 {
        lemma_no_leading_zero(n / 10);
    }
}

/// Only digits behind at most one sign are read as a number, and there is at least one.
pub proof fn only_digits_are_read(given: Seq<char>)
    requires
        text::parsed_i64(given) is Some,
    ensures
        given.len() > 0,
        forall|i: int|
            1 <= i < given.len() ==> 48 <= (#[trigger] given[i]) as int && given[i] as int <= 57,
        given[0] == '-' || given[0] == '+' || 48 <= given[0] as int <= 57,
        given[0] == '-' || given[0] == '+' ==> given.len() > 1,
        given[0] != '-' ==> text::parsed_i64(given)->0 >= 0,
        given[0] == '-' ==> text::parsed_i64(given)->0 <= 0,
{
    let digits = text::unsigned_part(given);
    assert forall|i: int| 1 <= i < given.len() implies 48 <= (#[trigger] given[i]) as int
        && given[i] as int <= 57 by {
        if text::signed(given) {
            assert(digits[i - 1] == given[i]);
            assert(text::is_digit(digits[i - 1]));
        } else {
            assert(text::is_digit(digits[i]));
        }
    }
    if !text::signed(given) {
        assert(text::is_digit(digits[0]));
    }
}

/// A text of digits is read digit by digit: one more digit makes it ten times the number
/// and the digit, as long as that is in range. A plus sign changes nothing, a minus sign
/// negates.
pub proof fn numbers_are_read_digit_by_digit(given: Seq<char>, ch: char, digit: int)
    requires
        text::parsed_i64(given) is Some,
        given[0] != '-' && given[0] != '+',
        is_digit_of(ch, digit),
    ensures
        text::parsed_i64(seq![ch]) == Some(digit as i64),
        ({
            let value = text::parsed_i64(given)->0;
            &&& 10 * value + digit <= i64::MAX ==> text::parsed_i64(given.push(ch)) == Some(
                (10 * value + digit) as i64,
            )
            &&& 10 * value + digit > i64::MAX ==> text::parsed_i64(given.push(ch)) is None
            &&& text::parsed_i64(seq!['+'] + given) == Some(value)
            &&& text::parsed_i64(seq!['-'] + given) == Some((-value) as i64)
        }),
{
    let longer = given.push(ch);
    assert(longer[0] == given[0]);
    assert(text::unsigned_part(longer) == longer);
    assert(longer.drop_last() =~= given);
    assert(text::all_digits(longer)) by {
        assert forall|i: int| 0 <= i < longer.len() implies text::is_digit(
            #[trigger] longer[i],
        ) by {
            if i < given.len() {
                assert(text::is_digit(given[i]));
            }
        }
    }
    let one = seq![ch];
    assert(one.drop_last() =~= Seq::empty());
    assert(text::digits_value(one.drop_last()) == 0);
    assert(text::unsigned_part(one) == one);
    let plus = seq!['+'] + given;
    assert(plus[0] == '+');
    assert(text::unsigned_part(plus) =~= given);
    let minus = seq!['-'] + given;
    assert(minus[0] == '-');
    assert(text::unsigned_part(minus) =~= given);
}

/// Nothing and a sign alone are no numbers.
pub proof fn a_sign_alone_is_no_number(sign: char)
    requires
        sign == '-' || sign == '+',
    ensures
        text::parsed_i64(Seq::empty()) is None,
        text::parsed_i64(seq![sign]) is None,
{
    assert(text::unsigned_part(seq![sign]) =~= Seq::empty());
}

/// Joining nothing gives nothing, joining one text gives it, and two lists with
/// something in each are joined with one separator between them.
pub proof fn joining_puts_separators_between(
    first: Seq<Seq<char>>,
    second: Seq<Seq<char>>,
    separator: Seq<char>,
    alone: Seq<char>,
)
    requires
        first.len() > 0,
        second.len() > 0,
    ensures
        text::joined(Seq::empty(), separator).len() == 0,
        text::joined(seq![alone], separator) == alone,
        text::joined(first + second, separator) == text::joined(first, separator) + separator
            + text::joined(second, separator),
    decreases second.len(),
{
    let all = first + second;
    assert(all.drop_last() =~= first + second.drop_last());
    assert(all.last() == second.last());
    if second.len() == 1 {
        assert(first + second.drop_last() =~= first);
    } else {
        joining_puts_separators_between(first, second.drop_last(), separator, alone);
        assert(text::joined(all, separator) =~= text::joined(first, separator) + separator
            + text::joined(second, separator));
    }
}

/// The words for the truth values.
pub proof fn truth_has_two_words(value: bool)
    ensures
        value ==> text::bool_word(value) == seq!['t', 'r', 'u', 'e'],
        !value ==> text::bool_word(value) == seq!['f', 'a', 'l', 's', 'e'],
{
    reveal_strlit("true");
    reveal_strlit("false");
    assert("true"@ =~= seq!['t', 'r', 'u', 'e']);
    assert("false"@ =~= seq!['f', 'a', 'l', 's', 'e']);
}

} // verus!
