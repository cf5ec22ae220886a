//! The QR code through which a phone joins a network.

use crate::text::{self, bool_to_text};
use qrcode::{Color, QrCode};
use vstd::prelude::*;
use vstd::string::*;

verus! {

/// Whether a character has a meaning of its own in a Wi-Fi payload.
pub open spec fn is_reserved(ch: char) -> bool {
    ch == '\\' || ch == ';' || ch == ',' || ch == ':' || ch == '"'
}

/// A character as it stands in a Wi-Fi payload: a reserved one after a backslash.
pub open spec fn escaped_char(ch: char) -> Seq<char> {
    if is_reserved(ch) {
        seq!['\\', ch]
    } else {
        seq![ch]
    }
}

/// A text as it stands in a Wi-Fi payload.
pub open spec fn escaped(value: Seq<char>) -> Seq<char>
    decreases value.len(),
{
    if value.len() == 0 {
        Seq::empty()
    } else {
        escaped_char(value[0]) + escaped(value.skip(1))
    }
}

/// A text as it stands in a Wi-Fi payload.
pub fn escape_wifi_qr(value: &str) -> (text: String)
    ensures
        text@ == escaped(value@),
{
    let mut text: String = String::new();
    assert(value@.skip(0) =~= value@);
    for ch in it: value.chars()
        invariant
            it.seq() == value@,
            text@ + escaped(value@.skip(it.index() as int)) == escaped(value@),
    {
        let ghost rest = value@.skip(it.index() as int);
        let ghost before = text@;
        assert(rest.skip(1) =~= value@.skip(it.index() + 1));
        if ch == '\\' || ch == ';' || ch == ',' || ch == ':' || ch == '"' {
            text.push('\\');
        }
        text.push(ch);
        assert(text@ =~= before + escaped_char(ch));
        assert(text@ + escaped(rest.skip(1)) =~= before + escaped(rest));
    }
    assert(value@.skip(value@.len() as int) =~= Seq::empty());
    assert(text@ =~= escaped(value@));
    text
}

/// The payload of the code for a network.
pub open spec fn payload_of(ssid: Seq<char>, key: Seq<char>, hidden: bool) -> Seq<char> {
    "WIFI:T:WPA;S:"@ + escaped(ssid) + ";P:"@ + escaped(key) + ";H:"@ + text::bool_word(hidden)
        + ";;"@
}

/// The payload of the code for a network.
pub fn wifi_qr_payload(ssid: &str, key: &str, hidden: bool) -> (payload: String)
    ensures
        payload@ == payload_of(ssid@, key@, hidden),
{
    let mut payload: String = "WIFI:T:WPA;S:".to_owned();
    payload.append(escape_wifi_qr(ssid).as_str());
    payload.append(";P:");
    payload.append(escape_wifi_qr(key).as_str());
    payload.append(";H:");
    payload.append(bool_to_text(hidden).as_str());
    payload.append(";;");
    payload
}

/// The modules of a QR code: how many there are on a side, and for each, row by
/// row, whether it is dark.
#[derive(Debug)]
pub struct Symbol {
    pub width: usize,
    pub dark: Vec<bool>,
}

/// The number of bytes up to which it is known that the encoder does not overflow.
/// It adds up the penalty points of a code in 16 bits, and the points of a large
/// code can exceed them.
///
/// However the encoder splits this many bytes into segments, they take at most
/// 2903 bits, and so a code of at most 73 modules a side. Let a line weigh its
/// points for runs and for likenesses of a finder pattern, and one and a half for
/// each two neighbours of one colour. A code has at most the points that its rows
/// and columns weigh together, with 100 more for its balance and 720 less for its
/// own finder patterns. A line of 73 modules weighs at most 457, and the two timing
/// lines weigh 28 each: that makes 65244. For the next larger code the same sum
/// does not stay below 65536.
pub const OVERFLOW_FREE_BYTES: usize = 232;

/// Whether the encoder is known not to overflow on `data`.
pub open spec fn encoder_stays_in_range(data: Seq<u8>) -> bool {
    data.len() <= OVERFLOW_FREE_BYTES
}

/// The modules of the smallest QR code at medium error correction that holds
/// `data`: how many on a side, and for each, row by row, whether it is dark.
pub uninterp spec fn qr_modules(data: Seq<u8>) -> (nat, Seq<bool>);

/// `QrCode::new` of the crate qrcode, with `QrCode::width` and
/// `QrCode::into_colors`: encodes bytes. It is claimed that there is a code for
/// so few bytes, that its modules depend on the bytes alone, that they form a
/// square, and that the square has the side of one of the forty sizes of QR codes.
/// There is a code because each byte takes at most 28 bits, with the header of a
/// segment of its own, and the middle sizes hold 8496. Left unsaid are which
/// modules are dark, and that a reader of the code gets the data back.
#[verifier::external_body]
fn encode(data: &[u8]) -> (symbol: Option<Symbol>)
    requires
        encoder_stays_in_range(data@),
    ensures
        symbol is Some,
        symbol matches Some(code) ==> {
            &&& qr_modules(data@) == (code.width as nat, code.dark@)
            &&& code.dark@.len() == code.width * code.width
            &&& 21 <= code.width <= 177
        },
{
    match QrCode::new(data) {
        Ok(code) => {
            let width: usize = code.width();
            let dark = code.into_colors().into_iter().map(
                |color|
                    match color {
                        Color::Dark => true,
                        Color::Light => false,
                    },
            ).collect();
            Some(Symbol { width, dark })
        },
        Err(_) => None,
    }
}

/// The light margin around a code, in modules.
pub const QUIET_ZONE: usize = 4;

/// A code with its margin, ready to draw.
#[derive(Debug)]
pub struct QrPlan {
    /// How many cells there are on a side, margin and all.
    pub cells: usize,
    /// The column and the row of each dark cell, row by row.
    pub dark: Vec<(usize, usize)>,
}

/// The cell of the module at `at`, counted row by row.
pub open spec fn cell_at(width: nat, at: int) -> (usize, usize) {
    ((at % (width as int) + QUIET_ZONE) as usize, (at / (width as int) + QUIET_ZONE) as usize)
}

/// The cells of the dark ones among the first `count` modules, in their order.
pub open spec fn dark_cells(width: nat, dark: Seq<bool>, count: nat) -> Seq<(usize, usize)>
    decreases count,
{
    if count == 0 {
        Seq::empty()
    } else {
        let before = dark_cells(width, dark, (count - 1) as nat);
        if dark[count - 1] {
            before.push(cell_at(width, count - 1))
        } else {
            before
        }
    }
}

/// Whether a symbol is a square, with a margin that can be counted.
pub open spec fn is_square(symbol: Symbol) -> bool {
    &&& symbol.dark@.len() == symbol.width * symbol.width
    &&& symbol.width + 2 * QUIET_ZONE <= usize::MAX
}

/// Whether a plan is that of a code with `width` modules on a side, in its margin.
pub open spec fn is_plan_of(plan: QrPlan, width: nat, dark: Seq<bool>) -> bool {
    &&& plan.cells == width + 2 * QUIET_ZONE
    &&& plan.dark@ == dark_cells(width, dark, dark.len())
}

/// Lays out a code in its margin.
pub fn layout(symbol: &Symbol) -> (plan: QrPlan)
    requires
        is_square(*symbol),
    ensures
        is_plan_of(plan, symbol.width as nat, symbol.dark@),
{
    let mut dark: Vec<(usize, usize)> = Vec::new();
    let width: usize = symbol.width;
    let mut at: usize = 0;
    let mut x: usize = 0;
    let mut y: usize = 0;
    assert(0 * (width as int) == 0);
    while at < symbol.dark.len()
        invariant
            is_square(*symbol),
            width == symbol.width,
            at <= symbol.dark@.len(),
            at == y * width + x,
            x < width || width == 0,
            y <= width,
            dark@ == dark_cells(width as nat, symbol.dark@, at as nat),
        decreases symbol.dark@.len() - at,
    {
        proof {
            assert(width > 0) by (nonlinear_arith)
                requires
                    0 <= at < width * width,
                    width >= 0,
            ;
            vstd::arithmetic::div_mod::lemma_fundamental_div_mod_converse(
                at as int,
                width as int,
                y as int,
                x as int,
            );
            assert(y < width) by (nonlinear_arith)
                requires
                    y * width + x < width * width,
                    x >= 0,
                    y >= 0,
            ;
        }
        if symbol.dark[at] {
            dark.push((x + QUIET_ZONE, y + QUIET_ZONE));
        }
        at = at + 1;
        if x + 1 < width {
            x = x + 1;
        } else {
            assert((y + 1) * width == y * width + width) by (nonlinear_arith);
            x = 0;
            y = y + 1;
        }
    }
    QrPlan { cells: width + 2 * QUIET_ZONE, dark }
}

/// The payload of the code for a network, in bytes.
pub open spec fn payload_bytes(ssid: Seq<char>, key: Seq<char>, hidden: bool) -> Seq<u8> {
    vstd::utf8::encode_utf8(payload_of(ssid, key, hidden))
}

/// Whether the encoder is known not to overflow on the payload for a network. It
/// is for every name and key that a WPA network can have: with 32 bytes and 63
/// characters, all of them escaped, the payload has 216 bytes.
pub fn can_draw_qr(ssid: &str, key: &str, hidden: bool) -> (known: bool)
    ensures
        known == encoder_stays_in_range(payload_bytes(ssid@, key@, hidden)),
{
    let payload: String = wifi_qr_payload(ssid, key, hidden);
    payload.as_str().as_bytes().len() <= OVERFLOW_FREE_BYTES
}

/// The code for a network, ready to draw.
pub fn wifi_qr(ssid: &str, key: &str, hidden: bool) -> (plan: QrPlan)
    requires
        encoder_stays_in_range(payload_bytes(ssid@, key@, hidden)),
    ensures
        ({
            let (width, dark) = qr_modules(payload_bytes(ssid@, key@, hidden));
            is_plan_of(plan, width, dark)
        }),
{
    let payload: String = wifi_qr_payload(ssid, key, hidden);
    let symbol: Symbol = encode(payload.as_str().as_bytes()).unwrap();
    layout(&symbol)
}

/// How a field of a Wi-Fi payload is read: up to the first semicolon that no
/// backslash precedes, with the backslashes taken out. The second part is what
/// follows the semicolon.
pub open spec fn read_field(payload: Seq<char>) -> (Seq<char>, Seq<char>)
    decreases payload.len(),
{
    if payload.len() == 0 {
        (Seq::empty(), Seq::empty())
    } else if payload[0] == ';' {
        (Seq::empty(), payload.skip(1))
    } else if payload[0] == '\\' && payload.len() >= 2 {
        let (field, rest) = read_field(payload.skip(2));
        (seq![payload[1]] + field, rest)
    } else {
        let (field, rest) = read_field(payload.skip(1));
        (seq![payload[0]] + field, rest)
    }
}

/// An escaped text, read as a field, is the text: whatever it holds, nothing of
/// it ends the field or gets lost.
pub proof fn an_escaped_field_reads_back(value: Seq<char>, rest: Seq<char>)
    ensures
        read_field(escaped(value) + seq![';'] + rest) == (value, rest),
    decreases value.len(),
{
    let all = escaped(value) + seq![';'] + rest;
    if value.len() == 0 {
        assert(all[0] == ';');
        assert(all.skip(1) =~= rest);
        assert(value =~= Seq::empty());
    } else {
        let tail = value.skip(1);
        an_escaped_field_reads_back(tail, rest);
        let behind = escaped(tail) + seq![';'] + rest;
        if is_reserved(value[0]) {
            assert(all[0] == '\\');
            assert(all[1] == value[0]);
            assert(all.skip(2) =~= behind);
        } else {
            assert(all[0] == value[0]);
            assert(all.skip(1) =~= behind);
        }
        assert(seq![value[0]] + tail =~= value);
    }
}

/// How a Wi-Fi payload is read: the network's name, its key, and the word that
/// tells whether it is hidden, each behind its letter and a colon.
pub open spec fn read_payload(payload: Seq<char>) -> (Seq<char>, Seq<char>, Seq<char>) {
    let (ssid, after_ssid) = read_field(payload.skip("WIFI:T:WPA;S:"@.len() as int));
    let (key, after_key) = read_field(after_ssid.skip("P:"@.len() as int));
    let (hidden, _) = read_field(after_key.skip("H:"@.len() as int));
    (ssid, key, hidden)
}

/// What a phone reads from a payload is what was put in, whatever characters the
/// name and the key hold.
pub proof fn a_payload_reads_back(ssid: Seq<char>, key: Seq<char>, hidden: bool)
    ensures
        read_payload(payload_of(ssid, key, hidden)) == (ssid, key, text::bool_word(hidden)),
{
    reveal_strlit("WIFI:T:WPA;S:");
    reveal_strlit(";P:");
    reveal_strlit(";H:");
    reveal_strlit(";;");
    reveal_strlit("P:");
    reveal_strlit("H:");
    reveal_strlit("true");
    reveal_strlit("false");
    let word = text::bool_word(hidden);
    let after_key = "H:"@ + word + ";;"@;
    let after_ssid = "P:"@ + escaped(key) + seq![';'] + after_key;
    let payload = payload_of(ssid, key, hidden);
    assert(payload.skip(13) =~= escaped(ssid) + seq![';'] + after_ssid);
    an_escaped_field_reads_back(ssid, after_ssid);
    assert(after_ssid.skip(2) =~= escaped(key) + seq![';'] + after_key);
    an_escaped_field_reads_back(key, after_key);
    assert(escaped(word) =~= word) by {
        reveal_with_fuel(escaped, 6);
        assert(word.skip(1).skip(1) =~= word.skip(2));
        assert(word.skip(2).skip(1) =~= word.skip(3));
        assert(word.skip(3).skip(1) =~= word.skip(4));
        if !hidden {
            assert(word.skip(4).skip(1) =~= word.skip(5));
        }
    }
    assert(after_key.skip(2) =~= escaped(word) + seq![';'] + seq![';']);
    an_escaped_field_reads_back(word, seq![';']);
}

/// Two networks that differ in anything have different payloads.
pub proof fn payloads_tell_networks_apart(
    ssid: Seq<char>,
    key: Seq<char>,
    hidden: bool,
    other_ssid: Seq<char>,
    other_key: Seq<char>,
    other_hidden: bool,
)
    requires
        payload_of(ssid, key, hidden) == payload_of(other_ssid, other_key, other_hidden),
    ensures
        ssid == other_ssid,
        key == other_key,
        hidden == other_hidden,
{
    a_payload_reads_back(ssid, key, hidden);
    a_payload_reads_back(other_ssid, other_key, other_hidden);
    reveal_strlit("true");
    reveal_strlit("false");
    assert("true"@.len() != "false"@.len());
}

proof fn lemma_dark_cells(width: nat, dark: Seq<bool>, count: nat, i: int)
    requires
        width + 2 * QUIET_ZONE <= usize::MAX,
        count <= width * width,
        0 <= i < dark_cells(width, dark, count).len(),
    ensures
        ({
            let cell = dark_cells(width, dark, count)[i];
            &&& QUIET_ZONE <= cell.0 < width + QUIET_ZONE
            &&& QUIET_ZONE <= cell.1 < width + QUIET_ZONE
            &&& dark[(cell.1 - QUIET_ZONE) * width + (cell.0 - QUIET_ZONE)]
        }),
    decreases count,
{
    let at = count - 1;
    let before = dark_cells(width, dark, at as nat);
    if dark[at] && i == before.len() {
        let (x, y) = (at % (width as int), at / (width as int));
        assert(width > 0) by (nonlinear_arith)
            requires
                0 <= at < width * width,
        ;
        vstd::arithmetic::div_mod::lemma_fundamental_div_mod(at, width as int);
        vstd::arithmetic::div_mod::lemma_mod_bound(at, width as int);
        assert(0 <= y < width) by (nonlinear_arith)
            requires
                at == width * y + x,
                0 <= at < width * width,
                0 <= x < width,
        ;
        assert(width * y == y * width) by (nonlinear_arith);
    } else {
        lemma_dark_cells(width, dark, at as nat, i);
    }
}

/// The margin stays light: a cell is drawn dark only where the code, inside its
/// margin, has a dark module.
pub proof fn only_dark_modules_are_drawn(symbol: Symbol, i: int)
    requires
        is_square(symbol),
        0 <= i < dark_cells(symbol.width as nat, symbol.dark@, symbol.dark@.len()).len(),
    ensures
        ({
            let cell = dark_cells(symbol.width as nat, symbol.dark@, symbol.dark@.len())[i];
            &&& QUIET_ZONE <= cell.0 < symbol.width + QUIET_ZONE
            &&& QUIET_ZONE <= cell.1 < symbol.width + QUIET_ZONE
            &&& symbol.dark@[(cell.1 - QUIET_ZONE) * symbol.width + (cell.0 - QUIET_ZONE)]
        }),
{
    lemma_dark_cells(symbol.width as nat, symbol.dark@, symbol.dark@.len(), i);
}

} // verus!
