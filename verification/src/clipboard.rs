//! Clipboard text as the host exchanges it: UTF-16 code units with a zero at
//! the end.

use vstd::prelude::*;
use crate::textbox::string_from_chars;

verus! {

/// Calls `char::from_u32`, which gives the character with the code point
/// `value`, and nothing where `value` is a surrogate or lies past the last
/// code point.
#[verifier::external_body]
pub(crate) fn char_from_u32(value: u32) -> (c: Option<char>)
    ensures
        c is Some <==> (value <= 0xD7FF || 0xE000 <= value <= 0x10FFFF),
        c matches Some(ch) ==> ch as int == value,
{
    char::from_u32(value)
}

/// Whether the code unit is one half of a surrogate pair.
pub open spec fn is_surrogate(unit: u16) -> bool {
    0xD800 <= unit <= 0xDFFF
}

/// How many of the code units belong to the text: those before the first
/// zero among the first `n`, and at most `n`.
pub open spec fn text_length(units: Seq<u16>, n: int) -> int
    decreases n,
{
    if n <= 0 {
        0
    } else if text_length(units, n - 1) < n - 1 || units[n - 1] == 0 {
        text_length(units, n - 1)
    } else {
        n
    }
}

/// Whether `text` holds the first `n` code units, each as the character with
/// that code point.
pub open spec fn reads_units(text: Seq<char>, units: Seq<u16>, n: int) -> bool {
    &&& text.len() == n
    &&& forall|i: int| 0 <= i < n ==> (#[trigger] text[i]) as int == units[i]
}

/// Whether a surrogate is among the first `n` code units.
pub open spec fn has_surrogate(units: Seq<u16>, n: int) -> bool {
    exists|i: int| 0 <= i < n && is_surrogate(#[trigger] units[i])
}

/// The smaller of two counts.
pub open spec fn at_most(a: int, b: int) -> int {
    if a <= b { a } else { b }
}

/// Reads the text that the clipboard holds: the code units up to the first
/// zero, and no more than `max_length` of them, each taken as one character.
/// A text with a surrogate in it, which stands for a character outside the
/// basic plane, is not read at all.
pub fn text_from_units(units: &[u16], max_length: usize) -> (text: Option<String>)
    ensures
        text is Some <==> !has_surrogate(units@, text_length(units@, at_most(units@.len() as int, max_length as int))),
        text matches Some(s) ==> reads_units(s@, units@, text_length(units@, at_most(units@.len() as int, max_length as int))),
{
    let limit: usize = if units.len() < max_length { units.len() } else { max_length };
    let mut text: Vec<char> = Vec::new();
    let mut i: usize = 0;
    while i < limit && units[i] != 0
        invariant
            i <= limit <= units@.len(),
            limit == at_most(units@.len() as int, max_length as int),
            text_length(units@, i as int) == i,
            !has_surrogate(units@, i as int),
            reads_units(text@, units@, i as int),
        decreases limit - i,
    {
        match char_from_u32(units[i] as u32) {
            Some(c) => {
                text.push(c);
            },
            None => {
                proof {
                    lemma_text_length_stops(units@, i as int, limit as int);
                    assert(is_surrogate(units@[i as int]));
                }
                return None;
            },
        }
        i = i + 1;
    }
    proof {
        lemma_text_length_stops(units@, i as int, limit as int);
    }
    Some(string_from_chars(text.as_slice()))
}

/// The text ends at the first zero, and goes on to the end of the code units
/// where there is none; up to there, the length of the text grows with the
/// number of code units looked at.
pub proof fn lemma_text_length_stops(units: Seq<u16>, i: int, n: int)
    requires
        0 <= i <= n <= units.len(),
        text_length(units, i) == i,
    ensures
        i < n && units[i] == 0 ==> text_length(units, n) == i,
        i < n && units[i] != 0 ==> text_length(units, n) >= i + 1,
        i == n ==> text_length(units, n) == n,
        text_length(units, n) <= n,
    decreases n - i,
{
    lemma_text_length_bound(units, n);
    if i < n {
        if units[i] == 0 {
            lemma_text_length_after_zero(units, i, n);
        } else {
            assert(text_length(units, i + 1) == i + 1);
            lemma_text_length_monotone(units, i + 1, n);
        }
    }
}

/// The text is never longer than the code units looked at.
pub proof fn lemma_text_length_bound(units: Seq<u16>, n: int)
    ensures
        0 <= text_length(units, n),
        n >= 0 ==> text_length(units, n) <= n,
    decreases n,
{
    if n > 0 {
        lemma_text_length_bound(units, n - 1);
    }
}

/// Looking at more code units never makes the text shorter.
pub proof fn lemma_text_length_monotone(units: Seq<u16>, i: int, n: int)
    requires
        0 <= i <= n,
    ensures
        text_length(units, i) <= text_length(units, n),
    decreases n - i,
{
    if i < n {
        lemma_text_length_monotone(units, i, n - 1);
        lemma_text_length_bound(units, n - 1);
    }
}

/// Once a zero ends the text, no code unit after it adds to the text.
pub proof fn lemma_text_length_after_zero(units: Seq<u16>, i: int, n: int)
    requires
        0 <= i < n,
        text_length(units, i) == i,
        units[i] == 0,
    ensures
        text_length(units, n) == i,
    decreases n - i,
{
    if n > i + 1 {
        lemma_text_length_after_zero(units, i, n - 1);
    }
}

/// The UTF-16 code units of one character: the code point itself below
/// 0x10000, and a high and a low surrogate for the others.
pub open spec fn char_units(c: char) -> Seq<u16> {
    let code = c as u32;
    if code < 0x10000 {
        seq![code as u16]
    } else {
        seq![(0xD800 + (code - 0x10000) / 0x400) as u16, (0xDC00 + (code - 0x10000) % 0x400) as u16]
    }
}

/// The UTF-16 code units of the first `n` characters of a text.
pub open spec fn text_units(text: Seq<char>, n: int) -> Seq<u16>
    decreases n,
{
    if n <= 0 {
        Seq::empty()
    } else {
        text_units(text, n - 1) + char_units(text[n - 1])
    }
}

/// The text as the clipboard takes it: its UTF-16 code units and a zero
/// after them.
pub fn units_from_text(text: &str) -> (units: Vec<u16>)
    ensures
        units@ == text_units(text@, text@.len() as int).push(0),
{
    let mut units: Vec<u16> = Vec::new();
    for c in it: text.chars()
        invariant
            it.seq() == text@,
            units@ == text_units(it.seq(), it.index()),
    {
        let code: u32 = c as u32;
        if code < 0x10000 {
            units.push(code as u16);
            assert(units@ =~= text_units(it.seq(), it.index() + 1));
        } else {
            let rest: u32 = code - 0x10000;
            units.push((0xD800 + rest / 0x400) as u16);
            units.push((0xDC00 + rest % 0x400) as u16);
            assert(units@ =~= text_units(it.seq(), it.index() + 1));
        }
    }
    units.push(0);
    units
}

} // verus!
