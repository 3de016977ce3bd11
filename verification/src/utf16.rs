//! UTF-16 as the guest runtime stores it: the code units of a text, and the
//! text of a sequence of code units, with unpaired surrogates replaced.
use vstd::prelude::*;

verus! {

/// What stands in for a code unit that is half of no pair.
pub const REPLACEMENT: char = '\u{FFFD}';

pub open spec fn is_high_surrogate(unit: u16) -> bool {
    0xD800 <= unit <= 0xDBFF
}

pub open spec fn is_low_surrogate(unit: u16) -> bool {
    0xDC00 <= unit <= 0xDFFF
}

pub open spec fn is_surrogate(unit: u16) -> bool {
    0xD800 <= unit <= 0xDFFF
}

/// The one or two code units of a character.
pub open spec fn char_units(c: char) -> Seq<u16> {
    let v = c as int;
    if v < 0x10000 {
        seq![v as u16]
    } else {
        seq![
            (0xD800 + (v - 0x10000) / 0x400) as u16,
            (0xDC00 + (v - 0x10000) % 0x400) as u16,
        ]
    }
}

/// The code units of a text, character by character.
pub open spec fn utf16_units(text: Seq<char>) -> Seq<u16>
    decreases text.len(),
{
    if text.len() == 0 {
        Seq::empty()
    } else {
        char_units(text[0]) + utf16_units(text.skip(1))
    }
}

/// The character that a high and a low surrogate stand for together.
pub open spec fn pair_char(high: u16, low: u16) -> char {
    (0x10000 + (high - 0xD800) * 0x400 + (low - 0xDC00)) as char
}

/// The text of a sequence of code units. A surrogate that is not part of a
/// high-low pair becomes one replacement character.
pub open spec fn utf16_text(units: Seq<u16>) -> Seq<char>
    decreases units.len(),
{
    if units.len() == 0 {
        Seq::empty()
    } else if !is_surrogate(units[0]) {
        seq![units[0] as char] + utf16_text(units.skip(1))
    } else if is_high_surrogate(units[0]) && units.len() >= 2 && is_low_surrogate(units[1]) {
        seq![pair_char(units[0], units[1])] + utf16_text(units.skip(2))
    } else {
        seq![REPLACEMENT] + utf16_text(units.skip(1))
    }
}

/// `char::from_u32` gives the character with that scalar value, and `None`
/// for a surrogate or a number above 0x10FFFF.
pub assume_specification[ char::from_u32 ](v: u32) -> (c: Option<char>)
    ensures
        c == if v <= 0xD7FF || (0xE000 <= v <= 0x10FFFF) {
            Some(v as char)
        } else {
            None::<char>
        },
;

/// `String::push` appends one character.
pub assume_specification[ String::push ](text: &mut String, c: char)
    ensures
        final(text)@ == old(text)@.push(c),
;

/// A character is a scalar value: at most 0x10FFFF, and no surrogate.
pub proof fn lemma_char_range(c: char)
    ensures
        0 <= c as int <= 0x10FFFF,
        !(0xD800 <= c as int <= 0xDFFF),
{
}

pub fn encode_utf16(text: &str) -> (units: Vec<u16>)
    ensures
        units@ == utf16_units(text@),
{
    let mut units: Vec<u16> = Vec::new();
    let chars = text.chars();
    assert(text@.skip(0) =~= text@);
    assert(units@ + utf16_units(text@) =~= utf16_units(text@));
    for c in iter: chars
        invariant
            iter.seq() == text@,
            units@ + utf16_units(text@.skip(iter.index() as int)) == utf16_units(text@),
    {
        let ghost before = units@;
        let ghost rest = text@.skip(iter.index() as int);
        assert(rest[0] == c);
        assert(rest.skip(1) =~= text@.skip(iter.index() + 1));
        proof {
            lemma_char_range(c);
        }
        let v: u32 = c as u32;
        if v < 0x10000 {
            units.push(v as u16);
            assert(units@ =~= before + seq![v as u16]);
        } else {
            let w: u32 = v - 0x10000;
            let high: u16 = (0xD800 + w / 0x400) as u16;
            let low: u16 = (0xDC00 + w % 0x400) as u16;
            units.push(high);
            units.push(low);
            assert(units@ =~= before + seq![high, low]);
        }
        assert(units@ =~= before + char_units(c));
        assert(units@ + utf16_units(rest.skip(1)) =~= before + utf16_units(rest));
    }
    assert(text@.skip(text@.len() as int) =~= Seq::<char>::empty());
    assert(units@ + Seq::<u16>::empty() =~= units@);
    units
}

/// The character with scalar value `v`.
fn scalar_char(v: u32) -> (c: char)
    requires
        v <= 0xD7FF || 0xE000 <= v <= 0x10FFFF,
    ensures
        c == v as char,
{
    match char::from_u32(v) {
        Some(c) => c,
        None => REPLACEMENT,
    }
}

pub fn decode_utf16_lossy(units: &Vec<u16>) -> (text: String)
    ensures
        text@ == utf16_text(units@),
{
    let mut text = String::new();
    let mut i: usize = 0;
    assert(units@.skip(0) =~= units@);
    assert(text@ + utf16_text(units@) =~= utf16_text(units@));
    while i < units.len()
        invariant
            i <= units.len(),
            text@ + utf16_text(units@.skip(i as int)) == utf16_text(units@),
        decreases units.len() - i,
    {
        let ghost before = text@;
        let ghost rest = units@.skip(i as int);
        let unit: u16 = units[i];
        assert(rest[0] == unit);
        if unit < 0xD800 || unit > 0xDFFF {
            text.push(scalar_char(unit as u32));
            assert(rest.skip(1) =~= units@.skip(i + 1));
            assert(text@ + utf16_text(rest.skip(1)) =~= before + utf16_text(rest));
            i = i + 1;
        } else if unit <= 0xDBFF && i + 1 < units.len() && units[i + 1] >= 0xDC00 && units[i + 1]
            <= 0xDFFF {
            let low: u16 = units[i + 1];
            assert(rest[1] == low);
            let v: u32 = 0x10000 + (unit as u32 - 0xD800) * 0x400 + (low as u32 - 0xDC00);
            text.push(scalar_char(v));
            assert(rest.skip(2) =~= units@.skip(i + 2));
            assert(text@ + utf16_text(rest.skip(2)) =~= before + utf16_text(rest));
            i = i + 2;
        } else {
            text.push(REPLACEMENT);
            assert(rest.skip(1) =~= units@.skip(i + 1));
            assert(text@ + utf16_text(rest.skip(1)) =~= before + utf16_text(rest));
            i = i + 1;
        }
    }
    assert(units@.skip(units@.len() as int) =~= Seq::<u16>::empty());
    assert(text@ + Seq::<char>::empty() =~= text@);
    text
}

/// Every text comes back unchanged from its own code units. A text holds
/// no surrogate, so the replacement never shows up on the way.
pub proof fn lemma_utf16_round_trip(text: Seq<char>)
    ensures
        utf16_text(utf16_units(text)) == text,
    decreases text.len(),
{
    if text.len() > 0 {
        let c = text[0];
        let tail = utf16_units(text.skip(1));
        let units = utf16_units(text);
        lemma_char_range(c);
        lemma_utf16_round_trip(text.skip(1));
        if (c as int) < 0x10000 {
            assert(units.skip(1) =~= tail);
            assert(units[0] as char == c);
        } else {
            assert(units.skip(2) =~= tail);
            assert(pair_char(units[0], units[1]) == c);
        }
        assert(seq![c] + text.skip(1) =~= text);
    }
}

/// A text has at least one code unit for each character and at most two.
pub proof fn lemma_utf16_units_len(text: Seq<char>)
    ensures
        text.len() <= utf16_units(text).len() <= 2 * text.len(),
    decreases text.len(),
{
    if text.len() > 0 {
        lemma_utf16_units_len(text.skip(1));
    }
}

} // verus!
