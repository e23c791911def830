//! Character classes the typing session filters on: composition-intermediate
//! code points of multi-stage input methods, and Unicode whitespace.

use vstd::prelude::*;

verus! {

/// A code point in one of the reserved ranges that multi-stage (Hangul)
/// input methods emit while a syllable is still being composed: the jamo
/// blocks U+1100..=U+11FF, U+3130..=U+318F, U+A960..=U+A97F and
/// U+D7B0..=U+D7FF. Such keystrokes are transient and never represent a
/// finalized character.
pub open spec fn is_composing(c: char) -> bool {
    let u = c as u32;
    (0x1100 <= u && u <= 0x11FF) || (0x3130 <= u && u <= 0x318F) || (0xA960 <= u && u <= 0xA97F)
        || (0xD7B0 <= u && u <= 0xD7FF)
}

/// A code point with the Unicode `White_Space` property, written out as the
/// explicit list of ranges so the filter is auditable.
pub open spec fn is_white_space(c: char) -> bool {
    let u = c as u32;
    (0x09 <= u && u <= 0x0D) || u == 0x20 || u == 0x85 || u == 0xA0 || u == 0x1680 || (0x2000 <= u
        && u <= 0x200A) || u == 0x2028 || u == 0x2029 || u == 0x202F || u == 0x205F || u == 0x3000
}

/// Decides [`is_white_space`] executably.
pub fn white_space(c: char) -> (r: bool)
    ensures
        r == is_white_space(c),
{
    let u = c as u32;
    (0x09 <= u && u <= 0x0D) || u == 0x20 || u == 0x85 || u == 0xA0 || u == 0x1680 || (0x2000 <= u
        && u <= 0x200A) || u == 0x2028 || u == 0x2029 || u == 0x202F || u == 0x205F || u == 0x3000
}

/// A character the session will compare against the script rather than
/// filter out: the space character itself, or anything that is neither a
/// composition intermediate nor whitespace (line feed and carriage return
/// are whitespace, so they are excluded here too).
pub open spec fn is_typeable(c: char) -> bool {
    c == ' ' || (!is_composing(c) && !is_white_space(c))
}

} // verus!
