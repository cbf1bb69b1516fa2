//! Token data types: the closed set of token kinds, half-open source
//! spans, and the `(kind, span)` pair the scanner hands to its caller.

use vstd::prelude::*;

verus! {

/// The closed, exhaustive set of token classifications.
///
/// `WHITESPACE` is an internal marker: the tokenizer's dispatch loop uses it
/// to restart after a whitespace run, and it never escapes `next_token`.
#[derive(Clone, Copy, Debug, PartialEq, Eq, Structural)]
pub enum TokenKind {
    /// `,`
    COMMA,
    /// `:`
    COLON,
    /// `;`
    SEMICOLON,
    /// `(`
    LPAREN,
    /// `)`
    RPAREN,
    /// `[`
    LBRACK,
    /// `]`
    RBRACK,
    /// Produced by the `}` character (the scanning table pairs the curly
    /// brace characters with the opposite kind names; kept as-is).
    LCURLY,
    /// Produced by the `{` character.
    RCURLY,
    /// `.`
    DOT,
    /// `:=`
    ASSIGN,
    /// `+`
    PLUS,
    /// `-`
    MINUS,
    /// `*`
    TIMES,
    /// `/`
    DIVIDE,
    /// `%`
    PERCENT,
    /// `=`
    EQ,
    /// `<>`
    NEQ,
    /// `<`
    LT,
    /// `<=`
    LE,
    /// `>`
    GT,
    /// `>=`
    GE,
    /// `&`
    AND,
    /// `|`
    OR,
    /// `array`
    ARRAY,
    /// `if`
    IF,
    /// `then`
    THEN,
    /// `else`
    ELSE,
    /// `while`
    WHILE,
    /// `for`
    FOR,
    /// `to`
    TO,
    /// `do`
    DO,
    /// `let`
    LET,
    /// `in`
    IN,
    /// `end`
    END,
    /// `of`
    OF,
    /// `break`
    BREAK,
    /// `function`
    FUNCTION,
    /// `var`
    VAR,
    /// `type`
    TYPE,
    /// `nil`
    NIL,
    /// A letter-led lexeme that is not one of the sixteen keywords.
    ID,
    /// A double-quoted string literal.
    STRING,
    /// An integer literal.
    INT,
    /// A number literal containing a decimal point.
    FLOAT,
    /// A `/* ... */` comment (comments nest).
    COMMENT,
    /// End of input; returned forever once the source is exhausted.
    EOF,
    /// A character (or unterminated string) no rule matches.
    UNKNOWN,
    /// Internal marker for a skipped whitespace run; never escapes.
    WHITESPACE,
}

/// A half-open span `[lo, hi)` of character offsets into the source text.
#[derive(Clone, Copy, Debug, PartialEq, Eq, Structural)]
pub struct TokenPos(pub u32, pub u32);

impl TokenPos {
    /// Builds the span `[lo, hi)`.
    pub fn new(lo: u32, hi: u32) -> (p: TokenPos)
        ensures
            p == TokenPos(lo, hi),
    {
        TokenPos(lo, hi)
    }
}

/// One classified token: a kind and the span of source text it covers.
/// No lexeme text is stored; callers recover it by slicing the original
/// source with `pos`.
#[derive(Clone, Copy, Debug, PartialEq, Eq, Structural)]
pub struct Token {
    pub kind: TokenKind,
    pub pos: TokenPos,
}

impl Token {
    /// Builds a token from its kind and span.
    pub fn new(kind: TokenKind, pos: TokenPos) -> (t: Token)
        ensures
            t == (Token { kind, pos }),
    {
        Token { kind, pos }
    }
}

} // verus!
