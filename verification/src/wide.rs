//! UTF-16 encoding of identity strings, as stored in the record's
//! wide-character fields.

use vstd::prelude::*;

verus! {

/// The UTF-16 code units that encode one character: one unit for a
/// basic-plane character, a surrogate pair for the rest.
pub open spec fn utf16_char_units(c: char) -> Seq<u16> {
    if (c as u32) < 0x10000 {
        seq![(c as u32) as u16]
    } else {
        seq![
            (0xD800 + (((c as u32) - 0x10000) as u32 >> 10)) as u16,
            (0xDC00 + (((c as u32) - 0x10000) as u32 & 0x3FF)) as u16,
        ]
    }
}

/// The UTF-16 encoding of a character sequence.
pub open spec fn utf16_units(s: Seq<char>) -> Seq<u16>
    decreases s.len(),
{
    if s.len() == 0 {
        Seq::empty()
    } else {
        utf16_char_units(s[0]) + utf16_units(s.drop_first())
    }
}

/// The units stored for an identity string. A single trailing nul character
/// is not stored: the field's zero padding already terminates the string at
/// the same position.
pub open spec fn identity_units(s: Seq<char>) -> Seq<u16> {
    if s.len() > 0 && s[s.len() - 1] == '\0' {
        utf16_units(s).drop_last()
    } else {
        utf16_units(s)
    }
}

/// A string's UTF-16 encoding takes at most two units per character.
pub proof fn lemma_utf16_units_len(s: Seq<char>)
    ensures
        utf16_units(s).len() <= 2 * s.len(),
    decreases s.len(),
{
    if s.len() > 0 {
        lemma_utf16_units_len(s.drop_first());
    }
}

/// Relies on `widestring::U16CString::from_str` followed by `into_vec`:
/// the result is the UTF-16 encoding of the input without a terminator,
/// and construction fails exactly when a nul character stands anywhere but
/// the final position.
#[verifier::external_body]
pub(crate) fn encode_identity(s: &str) -> (r: Option<Vec<u16>>)
    ensures
        r is Some <==> (forall|i: int| 0 <= i < s@.len() - 1 ==> s@[i] != '\0'),
        r is Some ==> r.unwrap()@ == identity_units(s@),
{
    match widestring::U16CString::from_str(s) {
        Ok(w) => Some(w.into_vec()),
        Err(_) => None,
    }
}

} // verus!
