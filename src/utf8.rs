//! Well-formed UTF-8 byte sequences, and decoding bytes into text.
use vstd::prelude::*;

verus! {

/// A continuation byte: `10xxxxxx`.
pub open spec fn is_continuation(b: u8) -> bool {
    0x80 <= b <= 0xbf
}

/// Length of the well-formed code point encoding that starts `b`, or zero when
/// `b` starts with none (the table of well-formed byte sequences of UTF-8,
/// which rules out overlong forms, surrogates and values past U+10FFFF).
pub open spec fn utf8_lead_len(b: Seq<u8>) -> nat {
    if b.len() == 0 {
        0
    } else if b[0] <= 0x7f {
        1
    } else if 0xc2 <= b[0] <= 0xdf && b.len() >= 2 && is_continuation(b[1]) {
        2
    } else if b.len() >= 3 && is_continuation(b[2]) && (
    (b[0] == 0xe0 && 0xa0 <= b[1] <= 0xbf)
        || ((0xe1 <= b[0] <= 0xec || 0xee <= b[0] <= 0xef) && is_continuation(b[1]))
        || (b[0] == 0xed && 0x80 <= b[1] <= 0x9f)) {
        3
    } else if b.len() >= 4 && is_continuation(b[2]) && is_continuation(b[3]) && (
    (b[0] == 0xf0 && 0x90 <= b[1] <= 0xbf)
        || (0xf1 <= b[0] <= 0xf3 && is_continuation(b[1]))
        || (b[0] == 0xf4 && 0x80 <= b[1] <= 0x8f)) {
        4
    } else {
        0
    }
}

/// `b` is a sequence of well-formed UTF-8 code point encodings.
pub open spec fn is_utf8(b: Seq<u8>) -> bool
    decreases b.len(),
{
    if b.len() == 0 {
        true
    } else if utf8_lead_len(b) == 0 {
        false
    } else {
        is_utf8(b.skip(utf8_lead_len(b) as int))
    }
}

/// The text that well-formed UTF-8 bytes encode.
pub uninterp spec fn utf8_text_of(b: Seq<u8>) -> Seq<char>;

/// Relies on std::str::from_utf8: it succeeds exactly on well-formed UTF-8,
/// and then gives the text the bytes encode.
#[verifier::external_body]
pub(crate) fn decode_utf8(b: &[u8]) -> (r: Option<&str>)
    ensures
        r.is_some() <==> is_utf8(b@),
        r matches Some(s) ==> s@ == utf8_text_of(b@),
{
    std::str::from_utf8(b).ok()
}

} // verus!
