//! What the QR code of a network promises: what its payload holds, and which cells are
//! drawn.

use crate::qr::{self, QrPlan, Symbol};
use crate::text;
use vstd::prelude::*;
use vstd::string::*;

verus! {

/// A text is escaped character by character: the backslash, the semicolon, the comma,
/// the colon and the quotation mark each get a backslash in front, and every other
/// character stays as it is.
pub proof fn a_text_is_escaped_character_by_character(
    first: Seq<char>,
    second: Seq<char>,
    ch: char,
)
    ensures
        qr::escaped(Seq::empty()).len() == 0,
        qr::escaped(first + second) == qr::escaped(first) + qr::escaped(second),
        ch == '\\' || ch == ';' || ch == ',' || ch == ':' || ch == '"' ==> qr::escaped(seq![ch])
            == seq!['\\', ch],
        ch != '\\' && ch != ';' && ch != ',' && ch != ':' && ch != '"' ==> qr::escaped(seq![ch])
            == seq![ch],
    decreases first.len(),
{
    let alone = seq![ch];
    assert(alone.skip(1) =~= Seq::empty());
    assert(qr::escaped(alone.skip(1)) =~= Seq::empty());
    assert(qr::escaped(alone) =~= qr::escaped_char(ch));
    if first.len() == 0 {
        assert(first + second =~= second);
        assert(qr::escaped(first) + qr::escaped(second) =~= qr::escaped(second));
    } else {
        a_text_is_escaped_character_by_character(first.skip(1), second, ch);
        assert((first + second).skip(1) =~= first.skip(1) + second);
        assert(qr::escaped(first + second) =~= qr::escaped(first) + qr::escaped(second));
    }
}

/// A payload says that it is one for a Wi-Fi network with a WPA key, and holds the name,
/// the key and whether the network is hidden, each escaped behind its letter and closed
/// by a semicolon, with one more at the end.
pub proof fn a_payload_holds_its_fields(ssid: Seq<char>, key: Seq<char>, hidden: bool)
    ensures
        ({
            let (end, colon) = (seq![';'], seq![':']);
            let hidden_word = if hidden {
                "true"@
            } else {
                "false"@
            };
            qr::payload_of(ssid, key, hidden) == "WIFI"@ + colon + (seq!['T'] + colon + "WPA"@
                + end) + (seq!['S'] + colon + qr::escaped(ssid) + end) + (seq!['P'] + colon
                + qr::escaped(key) + end) + (seq!['H'] + colon + hidden_word + end) + end
        }),
{
    reveal_strlit("WIFI");
    reveal_strlit("WPA");
    reveal_strlit("WIFI:T:WPA;S:");
    reveal_strlit(";P:");
    reveal_strlit(";H:");
    reveal_strlit(";;");
    let (end, colon) = (seq![';'], seq![':']);
    let word = text::bool_word(hidden);
    let head = "WIFI"@ + colon + (seq!['T'] + colon + "WPA"@ + end);
    let name = seq!['S'] + colon + qr::escaped(ssid) + end;
    let secret = seq!['P'] + colon + qr::escaped(key) + end;
    let shown = seq!['H'] + colon + word + end;
    assert("WIFI:T:WPA;S:"@ =~= head + (seq!['S'] + colon));
    assert(";P:"@ =~= end + (seq!['P'] + colon));
    assert(";H:"@ =~= end + (seq!['H'] + colon));
    assert(";;"@ =~= end + end);
    let one = "WIFI:T:WPA;S:"@ + qr::escaped(ssid);
    assert(one + end =~= head + name);
    let two = one + ";P:"@ + qr::escaped(key);
    assert(two + end =~= head + name + secret);
    let three = two + ";H:"@ + word;
    assert(three + end =~= head + name + secret + shown);
    assert(three + ";;"@ =~= head + name + secret + shown + end);
}

/// The encoder is used for at most two hundred and thirty-two bytes.
pub proof fn the_encoder_is_used_within_its_range(data: Seq<u8>)
    ensures
        qr::encoder_stays_in_range(data) <==> data.len() <= 232,
{
}

/// How many of the first `count` modules are dark.
pub open spec fn count_dark(dark: Seq<bool>, count: nat) -> nat
    decreases count,
{
    if count == 0 {
        0
    } else {
        count_dark(dark, (count - 1) as nat) + if dark[count - 1] {
            1nat
        } else {
            0nat
        }
    }
}

/// Every dark module is drawn, in its row and its column behind a margin of four cells,
/// and nothing is drawn twice: there are as many dark cells as dark modules.
pub proof fn every_dark_module_is_drawn(symbol: Symbol, x: int, y: int)
    requires
        qr::is_square(symbol),
        0 <= x < symbol.width,
        0 <= y < symbol.width,
        symbol.dark@[y * symbol.width + x],
    ensures
        qr::dark_cells(symbol.width as nat, symbol.dark@, symbol.dark@.len()).contains(
            ((x + 4) as usize, (y + 4) as usize),
        ),
        qr::dark_cells(symbol.width as nat, symbol.dark@, symbol.dark@.len()).len() == count_dark(
            symbol.dark@,
            symbol.dark@.len(),
        ),
{
    let width = symbol.width as int;
    let at = y * width + x;
    assert(0 <= at < width * width) by (nonlinear_arith)
        requires
            at == y * width + x,
            0 <= x < width,
            0 <= y < width,
    ;
    vstd::arithmetic::div_mod::lemma_fundamental_div_mod_converse(at, width, y, x);
    lemma_dark_is_drawn(symbol.width as nat, symbol.dark@, symbol.dark@.len(), at);
    lemma_as_many(symbol.width as nat, symbol.dark@, symbol.dark@.len());
}

proof fn lemma_as_many(width: nat, dark: Seq<bool>, count: nat)
    ensures
        qr::dark_cells(width, dark, count).len() == count_dark(dark, count),
    decreases count,
{
    if count > 0 {
        lemma_as_many(width, dark, (count - 1) as nat);
    }
}

proof fn lemma_dark_is_drawn(width: nat, dark: Seq<bool>, count: nat, at: int)
    requires
        0 <= at < count,
        dark[at],
    ensures
        qr::dark_cells(width, dark, count).contains(qr::cell_at(width, at)),
    decreases count,
{
    let cells = qr::dark_cells(width, dark, count);
    let before = qr::dark_cells(width, dark, (count - 1) as nat);
    if at == count - 1 {
        assert(cells[before.len() as int] == qr::cell_at(width, at));
    } else {
        lemma_dark_is_drawn(width, dark, (count - 1) as nat, at);
        let i = choose|i: int| 0 <= i < before.len() && before[i] == qr::cell_at(width, at);
        assert(cells[i] == before[i]);
    }
}

/// A plan has four light cells on each side of the code, and shows every dark module once
/// in its place and nothing else.
pub proof fn a_plan_shows_the_code(plan: QrPlan, symbol: Symbol, i: int, x: int, y: int)
    requires
        qr::is_square(symbol),
        qr::is_plan_of(plan, symbol.width as nat, symbol.dark@),
    ensures
        plan.cells == symbol.width + 8,
        plan.dark@.len() == count_dark(symbol.dark@, symbol.dark@.len()),
        0 <= x < symbol.width && 0 <= y < symbol.width && symbol.dark@[y * symbol.width + x]
            ==> plan.dark@.contains(((x + 4) as usize, (y + 4) as usize)),
        0 <= i < plan.dark@.len() ==> {
            let cell = plan.dark@[i];
            &&& 4 <= cell.0 < symbol.width + 4
            &&& 4 <= cell.1 < symbol.width + 4
            &&& symbol.dark@[(cell.1 - 4) * symbol.width + (cell.0 - 4)]
        },
{
    lemma_as_many(symbol.width as nat, symbol.dark@, symbol.dark@.len());
    if 0 <= x < symbol.width && 0 <= y < symbol.width && symbol.dark@[y * symbol.width + x] {
        every_dark_module_is_drawn(symbol, x, y);
    }
    if 0 <= i < plan.dark@.len() {
        qr::only_dark_modules_are_drawn(symbol, i);
    }
}

/// What is encoded of a network is its payload, in UTF-8, and so networks that differ in
/// anything have different bytes to encode.
pub proof fn the_payload_is_what_is_encoded(
    ssid: Seq<char>,
    key: Seq<char>,
    hidden: bool,
    other_ssid: Seq<char>,
    other_key: Seq<char>,
    other_hidden: bool,
)
    ensures
        vstd::utf8::decode_utf8(qr::payload_bytes(ssid, key, hidden)) == qr::payload_of(
            ssid,
            key,
            hidden,
        ),
        qr::payload_bytes(ssid, key, hidden) == qr::payload_bytes(
            other_ssid,
            other_key,
            other_hidden,
        ) ==> ssid == other_ssid && key == other_key && hidden == other_hidden,
{
    vstd::utf8::encode_utf8_decode_utf8(qr::payload_of(ssid, key, hidden));
    vstd::utf8::encode_utf8_decode_utf8(qr::payload_of(other_ssid, other_key, other_hidden));
    if qr::payload_bytes(ssid, key, hidden) == qr::payload_bytes(
        other_ssid,
        other_key,
        other_hidden,
    ) {
        qr::payloads_tell_networks_apart(
            ssid,
            key,
            hidden,
            other_ssid,
            other_key,
            other_hidden,
        );
    }
}

/// The dark cells come row by row, and from left to right in each row.
pub proof fn dark_cells_come_row_by_row(symbol: Symbol, i: int, j: int)
    requires
        qr::is_square(symbol),
        0 <= i < j < qr::dark_cells(symbol.width as nat, symbol.dark@, symbol.dark@.len()).len(),
    ensures
        ({
            let cells = qr::dark_cells(symbol.width as nat, symbol.dark@, symbol.dark@.len());
            cells[i].1 < cells[j].1 || cells[i].1 == cells[j].1 && cells[i].0 < cells[j].0
        }),
{
    let width = symbol.width as int;
    let (first, second) = lemma_cells_keep_the_order(
        symbol.width as nat,
        symbol.dark@,
        symbol.dark@.len(),
        i,
        j,
    );
    assert(width > 0) by (nonlinear_arith)
        requires
            0 <= first < width * width,
            width >= 0,
    ;
    let (x, y) = (first % width, first / width);
    let (u, v) = (second % width, second / width);
    vstd::arithmetic::div_mod::lemma_fundamental_div_mod(first, width);
    vstd::arithmetic::div_mod::lemma_fundamental_div_mod(second, width);
    vstd::arithmetic::div_mod::lemma_mod_bound(first, width);
    vstd::arithmetic::div_mod::lemma_mod_bound(second, width);
    assert(0 <= y < width && 0 <= v < width) by (nonlinear_arith)
        requires
            first == width * y + x,
            second == width * v + u,
            0 <= first < second < width * width,
            0 <= x < width,
            0 <= u < width,
    ;
    assert(y < v || y == v && x < u) by (nonlinear_arith)
        requires
            first == width * y + x,
            second == width * v + u,
            first < second,
            0 <= x < width,
            0 <= u < width,
    ;
}

proof fn lemma_cell_is_of_a_module(width: nat, dark: Seq<bool>, count: nat, i: int) -> (at: int)
    requires
        0 <= i < qr::dark_cells(width, dark, count).len(),
    ensures
        0 <= at < count,
        qr::dark_cells(width, dark, count)[i] == qr::cell_at(width, at),
    decreases count,
{
    let before = qr::dark_cells(width, dark, (count - 1) as nat);
    if i < before.len() {
        lemma_cell_is_of_a_module(width, dark, (count - 1) as nat, i)
    } else {
        count - 1
    }
}

proof fn lemma_cells_keep_the_order(
    width: nat,
    dark: Seq<bool>,
    count: nat,
    i: int,
    j: int,
) -> (found: (int, int))
    requires
        0 <= i < j < qr::dark_cells(width, dark, count).len(),
    ensures
        0 <= found.0 < found.1 < count,
        qr::dark_cells(width, dark, count)[i] == qr::cell_at(width, found.0),
        qr::dark_cells(width, dark, count)[j] == qr::cell_at(width, found.1),
    decreases count,
{
    let before = qr::dark_cells(width, dark, (count - 1) as nat);
    if j < before.len() {
        lemma_cells_keep_the_order(width, dark, (count - 1) as nat, i, j)
    } else {
        let at = lemma_cell_is_of_a_module(width, dark, (count - 1) as nat, i);
        (at, count - 1)
    }
}

} // verus!
