//! From the code units that a layout translation produced to text.

use vstd::prelude::*;
use vstd::slice::slice_subrange;

verus! {

/// A code unit that opens a surrogate pair.
pub open spec fn is_lead_surrogate(unit: u16) -> bool {
    0xD800 <= unit <= 0xDBFF
}

/// A code unit that closes a surrogate pair.
pub open spec fn is_trail_surrogate(unit: u16) -> bool {
    0xDC00 <= unit <= 0xDFFF
}

/// The scalar value that a surrogate pair encodes.
pub open spec fn pair_scalar(lead: u16, trail: u16) -> u32 {
    (0x10000 + (lead - 0xD800) * 0x400 + (trail - 0xDC00)) as u32
}

/// UTF-16 decoding: the text that a sequence of code units encodes, or `None`
/// where a surrogate stands without its partner.
pub open spec fn utf16_text(units: Seq<u16>) -> Option<Seq<char>>
    decreases units.len(),
{
    if units.len() == 0 {
        Some(Seq::empty())
    } else if !is_lead_surrogate(units[0]) && !is_trail_surrogate(units[0]) {
        match utf16_text(units.skip(1)) {
            Some(rest) => Some(seq![(units[0] as u32) as char] + rest),
            None => None,
        }
    } else if is_lead_surrogate(units[0]) && units.len() >= 2 && is_trail_surrogate(units[1]) {
        match utf16_text(units.skip(2)) {
            Some(rest) => Some(seq![pair_scalar(units[0], units[1]) as char] + rest),
            None => None,
        }
    } else {
        None
    }
}

/// The text of a translation that reported `count` code units in `units`:
/// the decoding of the first `count` units when there is at least one and
/// the buffer holds that many, and nothing otherwise (a dead key reports a
/// negative count, an untranslatable key zero).
pub open spec fn translated_text(count: i32, units: Seq<u16>) -> Option<Seq<char>> {
    if 0 < count <= units.len() {
        utf16_text(units.subrange(0, count as int))
    } else {
        None
    }
}

/// Calls `String::from_utf16` of the standard library, which decodes UTF-16
/// and fails on invalid data. Trusted: the result is the decoding that
/// [`utf16_text`] spells out, and `None` exactly where that has none.
#[verifier::external_body]
fn decode_utf16(units: &[u16]) -> (text: Option<String>)
    ensures
        text.is_some() == utf16_text(units@).is_some(),
        text matches Some(s) ==> utf16_text(units@) == Some(s@),
{
    match String::from_utf16(units) {
        Ok(s) => Some(s),
        Err(_) => None,
    }
}

/// Decodes what a layout translation reported.
pub fn decode_translation(count: i32, units: &[u16]) -> (text: Option<String>)
    ensures
        text.is_some() == translated_text(count, units@).is_some(),
        text matches Some(s) ==> translated_text(count, units@) == Some(s@),
{
    if count > 0 && count as usize <= units.len() {
        decode_utf16(slice_subrange(units, 0, count as usize))
    } else {
        None
    }
}

/// A translation that has text has at least one character of it: no literal
/// is empty.
pub proof fn law_translated_text_is_nonempty(count: i32, units: Seq<u16>)
    requires
        translated_text(count, units).is_some(),
    ensures
        translated_text(count, units).unwrap().len() > 0,
{
}

} // verus!
