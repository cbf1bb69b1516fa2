//! The mathematical model of scanning.
//!
//! Each spec function here answers, over a `Seq<char>` view of the source
//! text, the question the corresponding executable sub-scanner answers over
//! the cursor: where the current lexeme ends and what kind it has.
//! [`spec_lexeme`] dispatches on the first character exactly as the
//! tokenizer does, and [`spec_next_token`] skips whitespace lexemes to give
//! the `(kind, lo, hi)` triple of the next visible token.

use vstd::prelude::*;

use crate::chars::{spec_is_digit, spec_is_letter, spec_is_whitespace};
use crate::token::TokenKind;

verus! {

/// The character at `i`, or the NUL sentinel once `i` is past the end.
/// The sentinel matches no scanning rule, so lookahead past the end of the
/// source always reads as "not matched".
pub open spec fn spec_char_at(src: Seq<char>, i: int) -> char {
    if 0 <= i < src.len() {
        src[i]
    } else {
        '\u{0000}'
    }
}

/// End of the whitespace run that starts at `i`: the first position at or
/// after `i` holding a non-whitespace character, or the end of the source.
pub open spec fn spec_ws_end(src: Seq<char>, i: int) -> int
    decreases src.len() - i when 0 <= i <= src.len()
{
    if i < src.len() && spec_is_whitespace(src[i]) {
        spec_ws_end(src, i + 1)
    } else {
        i
    }
}

/// End of the identifier run that starts at `i`: letters and digits are
/// consumed maximally.
pub open spec fn spec_ident_end(src: Seq<char>, i: int) -> int
    decreases src.len() - i when 0 <= i <= src.len()
{
    if i < src.len() && (spec_is_letter(src[i]) || spec_is_digit(src[i])) {
        spec_ident_end(src, i + 1)
    } else {
        i
    }
}

/// The kind of a letter-led lexeme: one of the sixteen reserved words gives
/// its keyword kind; any other lexeme is `ID`.  Matching is case-sensitive
/// and exact.
pub open spec fn spec_keyword_kind(s: Seq<char>) -> TokenKind {
    if s == "array"@ {
        TokenKind::ARRAY
    } else if s == "if"@ {
        TokenKind::IF
    } else if s == "then"@ {
        TokenKind::THEN
    } else if s == "else"@ {
        TokenKind::ELSE
    } else if s == "while"@ {
        TokenKind::WHILE
    } else if s == "for"@ {
        TokenKind::FOR
    } else if s == "to"@ {
        TokenKind::TO
    } else if s == "do"@ {
        TokenKind::DO
    } else if s == "let"@ {
        TokenKind::LET
    } else if s == "in"@ {
        TokenKind::IN
    } else if s == "end"@ {
        TokenKind::END
    } else if s == "of"@ {
        TokenKind::OF
    } else if s == "break"@ {
        TokenKind::BREAK
    } else if s == "function"@ {
        TokenKind::FUNCTION
    } else if s == "var"@ {
        TokenKind::VAR
    } else if s == "type"@ {
        TokenKind::TYPE
    } else if s == "nil"@ {
        TokenKind::NIL
    } else {
        TokenKind::ID
    }
}

/// Number scanning from `i`, with the first digit already consumed.
/// Digits extend the literal; one `.` switches it from integer to floating
/// classification; a second `.`, whitespace, or any other character ends it.
/// Returns the end position and whether a decimal point was consumed.
pub open spec fn spec_num_scan(src: Seq<char>, i: int, decimal_found: bool) -> (int, bool)
    decreases src.len() - i when 0 <= i <= src.len()
{
    if i < src.len() && spec_is_digit(src[i]) {
        spec_num_scan(src, i + 1, decimal_found)
    } else if i < src.len() && src[i] == '.' && !decimal_found {
        spec_num_scan(src, i + 1, true)
    } else {
        (i, decimal_found)
    }
}

/// String scanning from `i`, with the opening quote already consumed.
/// A closing `"` ends the literal; a backslash immediately followed by `\`
/// or `"` is an escape pair and both characters are consumed; any other
/// character passes through.  Returns the end position and whether the
/// literal was terminated before the source ran out.
pub open spec fn spec_str_scan(src: Seq<char>, i: int) -> (int, bool)
    decreases src.len() - i when 0 <= i <= src.len()
{
    if i >= src.len() {
        (i, false)
    } else if src[i] == '"' {
        (i + 1, true)
    } else if src[i] == '\\' && i + 1 < src.len() && (src[i + 1] == '\\' || src[i + 1] == '"') {
        spec_str_scan(src, i + 2)
    } else {
        spec_str_scan(src, i + 1)
    }
}

/// Comment scanning from `i`, with the opening `/` already consumed and
/// `depth` open comment regions (so the `*` of the opening `/*` is still at
/// `i` on entry).  Each `/*` pair raises the depth, each `*/` pair lowers
/// it; scanning ends when the depth reaches zero or the source runs out.
pub open spec fn spec_comment_scan(src: Seq<char>, i: int, depth: int) -> int
    decreases src.len() - i when 0 <= i <= src.len() && depth >= 1
{
    if i + 1 < src.len() && src[i] == '*' && src[i + 1] == '/' {
        if depth == 1 {
            i + 2
        } else {
            spec_comment_scan(src, i + 2, depth - 1)
        }
    } else if i + 1 < src.len() && src[i] == '/' && src[i + 1] == '*' {
        spec_comment_scan(src, i + 2, depth + 1)
    } else if i < src.len() {
        spec_comment_scan(src, i + 1, depth)
    } else {
        i
    }
}

/// Kind and end of a `:`-led lexeme, with the `:` already consumed at
/// `i - 1`: a following `=` gives `ASSIGN`, anything else `COLON`.
pub open spec fn spec_colon(src: Seq<char>, i: int) -> (TokenKind, int) {
    if spec_char_at(src, i) == '=' {
        (TokenKind::ASSIGN, i + 1)
    } else {
        (TokenKind::COLON, i)
    }
}

/// Kind and end of a `<`-led lexeme: `<>` gives `NEQ`, `<=` gives `LE`,
/// anything else `LT`.
pub open spec fn spec_less_than(src: Seq<char>, i: int) -> (TokenKind, int) {
    if spec_char_at(src, i) == '>' {
        (TokenKind::NEQ, i + 1)
    } else if spec_char_at(src, i) == '=' {
        (TokenKind::LE, i + 1)
    } else {
        (TokenKind::LT, i)
    }
}

/// Kind and end of a `>`-led lexeme: `>=` gives `GE`, anything else `GT`.
pub open spec fn spec_greater_than(src: Seq<char>, i: int) -> (TokenKind, int) {
    if spec_char_at(src, i) == '=' {
        (TokenKind::GE, i + 1)
    } else {
        (TokenKind::GT, i)
    }
}

/// Kind and end of a `/`-led lexeme: a following `*` opens a (possibly
/// nested) comment, anything else is plain division.
pub open spec fn spec_slash(src: Seq<char>, i: int) -> (TokenKind, int) {
    if spec_char_at(src, i) == '*' {
        (TokenKind::COMMENT, spec_comment_scan(src, i, 1))
    } else {
        (TokenKind::DIVIDE, i)
    }
}

/// Kind and end of the raw lexeme that starts at `i` (which must be a valid
/// position).  This is the dispatch table of the tokenizer: one character
/// decides the branch, and the chosen sub-scanner consumes maximally.
/// Whitespace runs are lexemes here too; `spec_next_token` filters them out.
pub open spec fn spec_lexeme(src: Seq<char>, i: int) -> (TokenKind, int)
    recommends 0 <= i < src.len()
{
    let c = src[i];
    if spec_is_whitespace(c) {
        (TokenKind::WHITESPACE, spec_ws_end(src, i + 1))
    } else if c == ',' {
        (TokenKind::COMMA, i + 1)
    } else if c == ';' {
        (TokenKind::SEMICOLON, i + 1)
    } else if c == '(' {
        (TokenKind::LPAREN, i + 1)
    } else if c == ')' {
        (TokenKind::RPAREN, i + 1)
    } else if c == '[' {
        (TokenKind::LBRACK, i + 1)
    } else if c == ']' {
        (TokenKind::RBRACK, i + 1)
    } else if c == '{' {
        (TokenKind::RCURLY, i + 1)
    } else if c == '}' {
        (TokenKind::LCURLY, i + 1)
    } else if c == '.' {
        (TokenKind::DOT, i + 1)
    } else if c == ':' {
        spec_colon(src, i + 1)
    } else if c == '+' {
        (TokenKind::PLUS, i + 1)
    } else if c == '-' {
        (TokenKind::MINUS, i + 1)
    } else if c == '*' {
        (TokenKind::TIMES, i + 1)
    } else if c == '%' {
        (TokenKind::PERCENT, i + 1)
    } else if c == '=' {
        (TokenKind::EQ, i + 1)
    } else if c == '<' {
        spec_less_than(src, i + 1)
    } else if c == '>' {
        spec_greater_than(src, i + 1)
    } else if c == '&' {
        (TokenKind::AND, i + 1)
    } else if c == '|' {
        (TokenKind::OR, i + 1)
    } else if spec_is_digit(c) {
        let (e, decimal_found) = spec_num_scan(src, i + 1, false);
        (if decimal_found { TokenKind::FLOAT } else { TokenKind::INT }, e)
    } else if c == '"' {
        let (e, terminated) = spec_str_scan(src, i + 1);
        (if terminated { TokenKind::STRING } else { TokenKind::UNKNOWN }, e)
    } else if c == '/' {
        spec_slash(src, i + 1)
    } else if spec_is_letter(c) {
        let e = spec_ident_end(src, i + 1);
        (spec_keyword_kind(src.subrange(i, e)), e)
    } else {
        (TokenKind::UNKNOWN, i + 1)
    }
}

/// The next visible token from position `i`: whitespace lexemes are skipped
/// (they consume position but are never surfaced), and an exhausted source
/// gives a zero-width `EOF`.  Returns `(kind, lo, hi)`.
pub open spec fn spec_next_token(src: Seq<char>, i: int) -> (TokenKind, int, int)
    decreases src.len() - i
        when 0 <= i <= src.len()
        via spec_next_token_decreases
{
    if i >= src.len() {
        (TokenKind::EOF, i, i)
    } else {
        let (kind, e) = spec_lexeme(src, i);
        if kind == TokenKind::WHITESPACE {
            spec_next_token(src, e)
        } else {
            (kind, i, e)
        }
    }
}

#[via_fn]
proof fn spec_next_token_decreases(src: Seq<char>, i: int) {
    if 0 <= i < src.len() && spec_is_whitespace(src[i]) {
        lemma_ws_end(src, i + 1);
    }
}

/// Bounds and content of a whitespace run: `spec_ws_end` stays within the
/// source, everything before it is whitespace, and it stops at the first
/// character that is not.
pub proof fn lemma_ws_end(src: Seq<char>, i: int)
    requires
        0 <= i <= src.len(),
    ensures
        i <= spec_ws_end(src, i) <= src.len(),
        forall|j: int| i <= j < spec_ws_end(src, i) ==> spec_is_whitespace(src[j]),
        spec_ws_end(src, i) < src.len() ==> !spec_is_whitespace(src[spec_ws_end(src, i)]),
    decreases src.len() - i,
{
    if i < src.len() && spec_is_whitespace(src[i]) {
        lemma_ws_end(src, i + 1);
    }
}

/// Bounds and content of an identifier run, in the same shape as
/// `lemma_ws_end`.
pub proof fn lemma_ident_end(src: Seq<char>, i: int)
    requires
        0 <= i <= src.len(),
    ensures
        i <= spec_ident_end(src, i) <= src.len(),
        forall|j: int| i <= j < spec_ident_end(src, i)
            ==> spec_is_letter(src[j]) || spec_is_digit(src[j]),
        spec_ident_end(src, i) < src.len()
            ==> !(spec_is_letter(src[spec_ident_end(src, i)])
                || spec_is_digit(src[spec_ident_end(src, i)])),
    decreases src.len() - i,
{
    if i < src.len() && (spec_is_letter(src[i]) || spec_is_digit(src[i])) {
        lemma_ident_end(src, i + 1);
    }
}

/// A number lexeme never runs past the end of the source.
pub proof fn lemma_num_scan(src: Seq<char>, i: int, decimal_found: bool)
    requires
        0 <= i <= src.len(),
    ensures
        i <= spec_num_scan(src, i, decimal_found).0 <= src.len(),
    decreases src.len() - i,
{
    if i < src.len() && spec_is_digit(src[i]) {
        lemma_num_scan(src, i + 1, decimal_found);
    } else if i < src.len() && src[i] == '.' && !decimal_found {
        lemma_num_scan(src, i + 1, true);
    }
}

/// A string lexeme never runs past the end of the source.
pub proof fn lemma_str_scan(src: Seq<char>, i: int)
    requires
        0 <= i <= src.len(),
    ensures
        i <= spec_str_scan(src, i).0 <= src.len(),
    decreases src.len() - i,
{
    if i >= src.len() {
    } else if src[i] == '"' {
    } else if src[i] == '\\' && i + 1 < src.len() && (src[i + 1] == '\\' || src[i + 1] == '"') {
        lemma_str_scan(src, i + 2);
    } else {
        lemma_str_scan(src, i + 1);
    }
}

/// A comment lexeme never runs past the end of the source, and always
/// consumes at least one character beyond the opening slash.
pub proof fn lemma_comment_scan(src: Seq<char>, i: int, depth: int)
    requires
        0 <= i <= src.len(),
        depth >= 1,
    ensures
        i <= spec_comment_scan(src, i, depth) <= src.len(),
        i < src.len() ==> i < spec_comment_scan(src, i, depth),
    decreases src.len() - i,
{
    if i + 1 < src.len() && src[i] == '*' && src[i + 1] == '/' {
        if depth != 1 {
            lemma_comment_scan(src, i + 2, depth - 1);
        }
    } else if i + 1 < src.len() && src[i] == '/' && src[i + 1] == '*' {
        lemma_comment_scan(src, i + 2, depth + 1);
    } else if i < src.len() {
        lemma_comment_scan(src, i + 1, depth);
    }
}

/// Every lexeme consumes at least one character and ends within the source:
/// scanning always advances and always stays in bounds.
pub proof fn lemma_lexeme(src: Seq<char>, i: int)
    requires
        0 <= i < src.len(),
    ensures
        i < spec_lexeme(src, i).1 <= src.len(),
{
    let c = src[i];
    if spec_is_whitespace(c) {
        lemma_ws_end(src, i + 1);
    } else if spec_is_digit(c) {
        lemma_num_scan(src, i + 1, false);
    } else if c == '"' {
        lemma_str_scan(src, i + 1);
    } else if c == '/' {
        lemma_comment_scan(src, i + 1, 1);
    } else if spec_is_letter(c) {
        lemma_ident_end(src, i + 1);
    }
}

/// Where the next visible token lies: its span sits between the scan
/// position and the end of the source, everything skipped before it is
/// whitespace, `EOF` is exactly the zero-width token at the end of the
/// source, and the internal `WHITESPACE` marker never escapes.
pub proof fn lemma_next_token(src: Seq<char>, i: int)
    requires
        0 <= i <= src.len(),
    ensures
        ({
            let (kind, lo, hi) = spec_next_token(src, i);
            &&& i <= lo <= hi <= src.len()
            &&& forall|j: int| i <= j < lo ==> spec_is_whitespace(src[j])
            &&& (kind == TokenKind::EOF <==> lo == src.len())
            &&& (kind == TokenKind::EOF ==> lo == hi)
            &&& (kind != TokenKind::EOF ==> lo < hi)
            &&& kind != TokenKind::WHITESPACE
        }),
    decreases src.len() - i,
{
    if i < src.len() {
        let (kind, e) = spec_lexeme(src, i);
        lemma_lexeme(src, i);
        if kind == TokenKind::WHITESPACE {
            lemma_ws_end(src, i + 1);
            lemma_next_token(src, e);
        }
    }
}

} // verus!
