//! Character classification used by the scanner.

use vstd::prelude::*;

verus! {

/// The character classes the scanner recognises as whitespace: the usual
/// ASCII suspects, NEXT LINE from latin1, the bidirectional marks, and the
/// dedicated Unicode line and paragraph separators.
pub open spec fn spec_is_whitespace(c: char) -> bool {
    ||| c == '\u{0009}'  // \t
    ||| c == '\u{000A}'  // \n
    ||| c == '\u{000B}'  // vertical tab
    ||| c == '\u{000C}'  // form feed
    ||| c == '\u{000D}'  // \r
    ||| c == '\u{0020}'  // space
    ||| c == '\u{0085}'  // NEXT LINE from latin1
    ||| c == '\u{200E}'  // LEFT-TO-RIGHT MARK
    ||| c == '\u{200F}'  // RIGHT-TO-LEFT MARK
    ||| c == '\u{2028}'  // LINE SEPARATOR
    ||| c == '\u{2029}'  // PARAGRAPH SEPARATOR
}

/// An ASCII decimal digit.
pub open spec fn spec_is_digit(c: char) -> bool {
    '0' <= c && c <= '9'
}

/// An ASCII letter; identifiers and keywords are built from these
/// (plus digits after the first character).
pub open spec fn spec_is_letter(c: char) -> bool {
    ('a' <= c && c <= 'z') || ('A' <= c && c <= 'Z')
}

/// Whether `c` counts as whitespace for the scanner.
pub fn is_whitespace(c: char) -> (b: bool)
    ensures
        b == spec_is_whitespace(c),
{
    matches!(
        c,
        '\u{0009}' | '\u{000A}' | '\u{000B}' | '\u{000C}' | '\u{000D}' | '\u{0020}'
        | '\u{0085}' | '\u{200E}' | '\u{200F}' | '\u{2028}' | '\u{2029}'
    )
}

/// Whether `c` is an ASCII decimal digit.
pub fn is_digit(c: char) -> (b: bool)
    ensures
        b == spec_is_digit(c),
{
    '0' <= c && c <= '9'
}

/// Whether `c` is an ASCII letter.
pub fn is_letter(c: char) -> (b: bool)
    ensures
        b == spec_is_letter(c),
{
    ('a' <= c && c <= 'z') || ('A' <= c && c <= 'Z')
}

/// Whether `c` may continue an identifier (a letter or a digit).
pub fn is_ident_char(c: char) -> (b: bool)
    ensures
        b == (spec_is_letter(c) || spec_is_digit(c)),
{
    is_letter(c) || is_digit(c)
}

} // verus!
