//! Text: building it, searching it, and decimal numbers in it.

use vstd::prelude::*;
use vstd::string::*;

verus! {

/// `String::push` of std: appends one character.
pub assume_specification[ String::push ](s: &mut String, ch: char)
    ensures
        final(s)@ == old(s)@.push(ch),
;

/// The characters of `text`.
pub fn chars_of(text: &str) -> (chars: Vec<char>)
    ensures
        chars@ == text@,
{
    let mut chars: Vec<char> = Vec::new();
    for ch in it: text.chars()
        invariant
            it.seq() == text@,
            chars@ == text@.take(it.index() as int),
    {
        chars.push(ch);
        assert(text@.take(it.index() + 1) =~= text@.take(it.index() as int).push(ch));
    }
    assert(text@.take(text@.len() as int) =~= text@);
    chars
}

/// Whether the two texts are the same.
pub fn same_text(left: &str, right: &str) -> (same: bool)
    ensures
        same == (left@ == right@),
{
    left.to_owned() == right.to_owned()
}

/// `first` followed by `second`.
pub fn concat2(first: &str, second: &str) -> (text: String)
    ensures
        text@ == first@ + second@,
{
    let mut text: String = first.to_owned();
    text.append(second);
    text
}

/// The three texts one after the other.
pub fn concat3(first: &str, second: &str, third: &str) -> (text: String)
    ensures
        text@ == first@ + second@ + third@,
{
    let mut text: String = concat2(first, second);
    text.append(third);
    text
}

/// `ch` in lower case if it is an ASCII letter, else unchanged.
pub open spec fn lower_char(ch: char) -> char {
    if 'A' <= ch && ch <= 'Z' {
        (ch as int + 32) as char
    } else {
        ch
    }
}

/// `text` with its ASCII letters in lower case.
pub open spec fn lower(text: Seq<char>) -> Seq<char> {
    text.map_values(|ch: char| lower_char(ch))
}

/// `text` with its ASCII letters in lower case.
pub fn to_lower(text: &str) -> (lowered: String)
    ensures
        lowered@ == lower(text@),
{
    let mut lowered: String = String::new();
    for ch in it: text.chars()
        invariant
            it.seq() == text@,
            lowered@ == lower(text@.take(it.index() as int)),
    {
        assert(text@.take(it.index() + 1) =~= text@.take(it.index() as int).push(ch));
        let small: char = if 'A' <= ch && ch <= 'Z' {
            ((ch as u8) + 32) as char
        } else {
            ch
        };
        lowered.push(small);
        assert(lower(text@.take(it.index() + 1)) =~= lowered@);
    }
    assert(text@.take(text@.len() as int) =~= text@);
    lowered
}

/// Whether `needle` stands in `text` from position `at` on.
pub open spec fn occurs_at(text: Seq<char>, needle: Seq<char>, at: int) -> bool {
    &&& 0 <= at
    &&& at + needle.len() <= text.len()
    &&& text.subrange(at, at + needle.len()) == needle
}

/// Whether `needle` stands somewhere in `text`.
pub open spec fn occurs_in(text: Seq<char>, needle: Seq<char>) -> bool {
    exists|at: int| #[trigger] occurs_at(text, needle, at)
}

/// Whether `needle` stands somewhere in `text`.
pub fn contains_text(text: &str, needle: &str) -> (found: bool)
    ensures
        found == occurs_in(text@, needle@),
{
    let hay: Vec<char> = chars_of(text);
    let sought: Vec<char> = chars_of(needle);
    if sought.len() > hay.len() {
        return false;
    }
    let last: usize = hay.len() - sought.len();
    let mut at: usize = 0;
    while at <= last
        invariant
            hay@ == text@,
            sought@ == needle@,
            sought.len() <= hay.len(),
            last == hay.len() - sought.len(),
            at <= last + 1,
            forall|earlier: int| 0 <= earlier < at ==> !#[trigger] occurs_at(
                text@,
                needle@,
                earlier,
            ),
        decreases last + 1 - at,
    {
        let mut matched: usize = 0;
        while matched < sought.len() && hay[at + matched] == sought[matched]
            invariant
                hay@ == text@,
                sought@ == needle@,
                at + sought.len() <= hay.len(),
                matched <= sought.len(),
                forall|k: int| 0 <= k < matched ==> hay@[at + k] == sought@[k],
            decreases sought.len() - matched,
        {
            matched = matched + 1;
        }
        if matched == sought.len() {
            assert(text@.subrange(at as int, at + needle@.len()) =~= needle@);
            assert(occurs_at(text@, needle@, at as int));
            return true;
        }
        assert(!occurs_at(text@, needle@, at as int)) by {
            if occurs_at(text@, needle@, at as int) {
                assert(text@.subrange(at as int, at + needle@.len())[matched as int]
                    == needle@[matched as int]);
            }
        }
        if at == last {
            assert forall|any: int| !#[trigger] occurs_at(text@, needle@, any) by {
                if 0 <= any && any + needle@.len() <= text@.len() {
                    assert(any <= last);
                }
            }
            return false;
        }
        at = at + 1;
    }
    false
}

/// Whether `text` starts with `ch`.
pub fn starts_with_char(text: &str, ch: char) -> (starts: bool)
    ensures
        starts == (text@.len() > 0 && text@[0] == ch),
{
    let chars: Vec<char> = chars_of(text);
    chars.len() > 0 && chars[0] == ch
}

/// The decimal digit `digit` as a character.
pub open spec fn digit_char(digit: int) -> char {
    ('0' as int + digit) as char
}

/// `n` in decimal digits, without leading zeros.
pub open spec fn decimal_nat(n: nat) -> Seq<char>
    decreases n,
{
    if n < 10 {
        seq![digit_char(n as int)]
    } else {
        decimal_nat(n / 10).push(digit_char((n % 10) as int))
    }
}

/// `n` in decimal, with a minus sign where it is negative.
pub open spec fn decimal(n: int) -> Seq<char> {
    if n < 0 {
        seq!['-'] + decimal_nat((-n) as nat)
    } else {
        decimal_nat(n as nat)
    }
}

/// Appends `n` in decimal digits to `text`.
fn push_decimal(text: &mut String, n: u128)
    ensures
        final(text)@ == old(text)@ + decimal_nat(n as nat),
    decreases n,
{
    if n >= 10 {
        push_decimal(text, n / 10);
    }
    let digit: u8 = (n % 10) as u8;
    let ch: char = (48u8 + digit) as char;
    text.push(ch);
    assert(text@ =~= old(text)@ + decimal_nat(n as nat));
}

/// `n` in decimal digits.
pub fn nat_to_text(n: u128) -> (text: String)
    ensures
        text@ == decimal_nat(n as nat),
{
    let mut text: String = String::new();
    push_decimal(&mut text, n);
    assert(text@ =~= decimal_nat(n as nat));
    text
}

/// `n` in decimal, with a minus sign where it is negative.
pub fn int_to_text(n: i64) -> (text: String)
    ensures
        text@ == decimal(n as int),
{
    if n < 0 {
        let mut text: String = String::new();
        text.push('-');
        let magnitude: u128 = (0i128 - (n as i128)) as u128;
        push_decimal(&mut text, magnitude);
        assert(text@ =~= decimal(n as int));
        text
    } else {
        nat_to_text(n as u128)
    }
}

/// A truth value as the word for it.
pub open spec fn bool_word(value: bool) -> Seq<char> {
    if value {
        "true"@
    } else {
        "false"@
    }
}

/// A truth value as the word for it.
pub fn bool_to_text(value: bool) -> (text: String)
    ensures
        text@ == bool_word(value),
{
    if value {
        "true".to_owned()
    } else {
        "false".to_owned()
    }
}

/// Whether `ch` is a decimal digit.
pub open spec fn is_digit(ch: char) -> bool {
    '0' <= ch && ch <= '9'
}

/// Whether every character is a decimal digit.
pub open spec fn all_digits(digits: Seq<char>) -> bool {
    forall|i: int| 0 <= i < digits.len() ==> is_digit(#[trigger] digits[i])
}

/// The number that the decimal `digits` write.
pub open spec fn digits_value(digits: Seq<char>) -> nat
    decreases digits.len(),
{
    if digits.len() == 0 {
        0
    } else {
        digits_value(digits.drop_last()) * 10 + (digits.last() as int - '0' as int) as nat
    }
}

/// Whether `text` begins with a plus or a minus sign.
pub open spec fn signed(text: Seq<char>) -> bool {
    text.len() > 0 && (text[0] == '-' || text[0] == '+')
}

/// `text` without its sign.
pub open spec fn unsigned_part(text: Seq<char>) -> Seq<char> {
    if signed(text) {
        text.skip(1)
    } else {
        text
    }
}

/// The number that `text` writes in decimal: an optional sign, then at least one
/// digit and nothing else. None where there is no such number in range.
pub open spec fn parsed_i64(text: Seq<char>) -> Option<i64> {
    let digits = unsigned_part(text);
    let magnitude = digits_value(digits) as int;
    let value = if text.len() > 0 && text[0] == '-' {
        -magnitude
    } else {
        magnitude
    };
    if digits.len() > 0 && all_digits(digits) && i64::MIN <= value <= i64::MAX {
        Some(value as i64)
    } else {
        None
    }
}

/// Longer digit strings never write smaller numbers.
proof fn lemma_digits_grow(digits: Seq<char>, upto: int)
    requires
        0 <= upto <= digits.len(),
        all_digits(digits),
    ensures
        digits_value(digits.take(upto)) <= digits_value(digits),
    decreases digits.len() - upto,
{
    if upto == digits.len() {
        assert(digits.take(upto) =~= digits);
    } else {
        lemma_digits_grow(digits, upto + 1);
        assert(digits.take(upto + 1).drop_last() =~= digits.take(upto));
    }
}

/// Reads `text` as a decimal number.
pub fn parse_i64(text: &str) -> (parsed: Option<i64>)
    ensures
        parsed == parsed_i64(text@),
{
    let chars: Vec<char> = chars_of(text);
    let negative: bool = chars.len() > 0 && chars[0] == '-';
    let start: usize = if chars.len() > 0 && (chars[0] == '-' || chars[0] == '+') {
        1
    } else {
        0
    };
    if start == chars.len() {
        return None;
    }
    let ghost digits = unsigned_part(text@);
    assert(digits =~= chars@.skip(start as int));
    let limit: u128 = 9_223_372_036_854_775_808;
    let mut value: u128 = 0;
    let mut at: usize = start;
    assert(digits.take(0) =~= Seq::<char>::empty());
    while at < chars.len()
        invariant
            chars@ == text@,
            digits == unsigned_part(text@),
            digits == chars@.skip(start as int),
            start <= at <= chars.len(),
            start <= 1,
            limit == 0x8000_0000_0000_0000,
            value <= limit,
            value == digits_value(digits.take(at - start)),
            all_digits(digits.take(at - start)),
        decreases chars.len() - at,
    {
        let ch: char = chars[at];
        assert(ch == digits[at - start]);
        assert(digits.take(at + 1 - start).drop_last() =~= digits.take(at - start));
        assert(digits.take(at + 1 - start).last() == ch);
        if !('0' <= ch && ch <= '9') {
            return None;
        }
        value = value * 10 + ((ch as u32) - ('0' as u32)) as u128;
        at = at + 1;
        assert(all_digits(digits.take(at - start)));
        if value > limit {
            proof {
                if all_digits(digits) {
                    lemma_digits_grow(digits, at - start);
                }
            }
            return None;
        }
    }
    assert(digits.take(at - start) =~= digits);
    if negative {
        Some((0i128 - (value as i128)) as i64)
    } else if value < limit {
        Some(value as i64)
    } else {
        None
    }
}

/// Texts with `separator` between each two of them.
pub open spec fn joined(parts: Seq<Seq<char>>, separator: Seq<char>) -> Seq<char>
    decreases parts.len(),
{
    if parts.len() == 0 {
        Seq::empty()
    } else if parts.len() == 1 {
        parts[0]
    } else {
        joined(parts.drop_last(), separator) + separator + parts.last()
    }
}

/// The texts that a list of strings holds.
pub open spec fn texts(strings: Seq<String>) -> Seq<Seq<char>> {
    strings.map_values(|s: String| s@)
}

/// The `parts` in one text, with `separator` between each two of them.
pub fn join(parts: &Vec<String>, separator: &str) -> (text: String)
    ensures
        text@ == joined(texts(parts@), separator@),
{
    let mut text: String = String::new();
    let mut at: usize = 0;
    while at < parts.len()
        invariant
            at <= parts.len(),
            text@ == joined(texts(parts@).take(at as int), separator@),
        decreases parts.len() - at,
    {
        if at > 0 {
            text.append(separator);
        }
        text.append(parts[at].as_str());
        assert(texts(parts@).take(at + 1).drop_last() =~= texts(parts@).take(at as int));
        assert(texts(parts@).take(at + 1).last() == parts@[at as int]@);
        at = at + 1;
        assert(text@ =~= joined(texts(parts@).take(at as int), separator@));
    }
    assert(texts(parts@).take(at as int) =~= texts(parts@));
    text
}

/// A number reads back as itself from the digits that write it.
pub proof fn decimal_reads_back(n: i64)
    ensures
        parsed_i64(decimal(n as int)) == Some(n),
{
    let magnitude: nat = if n < 0 {
        (-(n as int)) as nat
    } else {
        n as nat
    };
    lemma_decimal_nat_value(magnitude);
    let digits = decimal_nat(magnitude);
    if n < 0 {
        assert(decimal(n as int)[0] == '-');
        assert(unsigned_part(decimal(n as int)) =~= digits);
    } else {
        assert(is_digit(digits[0]));
        assert(unsigned_part(decimal(n as int)) == digits);
    }
}

/// The digits of a number are digits, there is at least one, and they write it.
proof fn lemma_decimal_nat_value(n: nat)
    ensures
        decimal_nat(n).len() > 0,
        all_digits(decimal_nat(n)),
        digits_value(decimal_nat(n)) == n,
    decreases n,
{
    let digits = decimal_nat(n);
    if n < 10 {
        assert(digits.drop_last() =~= Seq::<char>::empty());
        assert(digits_value(digits.drop_last()) == 0);
    } else {
        lemma_decimal_nat_value(n / 10);
        assert(digits.drop_last() =~= decimal_nat(n / 10));
    }
}

} // verus!
