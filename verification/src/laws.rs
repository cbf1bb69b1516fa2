//! Stream-level guarantees of the scanner, stated and proved over the
//! model in [`crate::scan`]: the spans of the lexeme stream partition the
//! source, end of input is idempotent, and keyword matching is exact.

use vstd::prelude::*;

use crate::chars::{spec_is_digit, spec_is_letter};
use crate::scan::{lemma_ident_end, lemma_lexeme, lemma_next_token};
use crate::scan::{spec_ident_end, spec_keyword_kind, spec_lexeme, spec_next_token};
use crate::token::TokenKind;

verus! {

/// The full stream of raw lexemes from position `i`: every lexeme the
/// dispatch loop consumes, whitespace runs included, each as a
/// `(kind, lo, hi)` triple.  The visible token stream is this stream with
/// the `WHITESPACE` entries dropped and a final zero-width `EOF` appended.
pub open spec fn spec_lexemes(src: Seq<char>, i: int) -> Seq<(TokenKind, int, int)>
    decreases src.len() - i
        when 0 <= i <= src.len()
        via spec_lexemes_decreases
{
    if i >= src.len() {
        Seq::empty()
    } else {
        let (kind, e) = spec_lexeme(src, i);
        seq![(kind, i, e)] + spec_lexemes(src, e)
    }
}

#[via_fn]
proof fn spec_lexemes_decreases(src: Seq<char>, i: int) {
    if 0 <= i < src.len() {
        lemma_lexeme(src, i);
    }
}

/// Coverage: the `[lo, hi)` spans of the lexeme stream — the surfaced
/// tokens together with the whitespace runs that are skipped but still
/// consume position — reconstruct the source exactly, with no gaps and no
/// overlaps.  Each span is non-empty and in bounds, consecutive spans are
/// adjacent, the first begins at the scan position, and the last ends at
/// the end of the source.
pub proof fn lemma_spans_partition(src: Seq<char>, i: int)
    requires
        0 <= i <= src.len(),
    ensures
        ({
            let ls = spec_lexemes(src, i);
            &&& (ls.len() == 0 <==> i == src.len())
            &&& (ls.len() > 0 ==> ls[0].1 == i)
            &&& (ls.len() > 0 ==> ls[ls.len() - 1].2 == src.len())
            &&& (forall|k: int| 0 <= k < ls.len()
                ==> i <= (#[trigger] ls[k]).1 < ls[k].2 <= src.len())
            &&& (forall|k: int| 0 <= k < ls.len() - 1 ==> (#[trigger] ls[k]).2 == ls[k + 1].1)
        }),
    decreases src.len() - i,
{
    if i < src.len() {
        let (kind, e) = spec_lexeme(src, i);
        lemma_lexeme(src, i);
        lemma_spans_partition(src, e);
        let ls = spec_lexemes(src, i);
        let tail = spec_lexemes(src, e);
        assert(ls == seq![(kind, i, e)] + tail);
        assert(ls[0] == (kind, i, e));
        assert(forall|k: int| 0 <= k < tail.len() ==> ls[k + 1] == tail[k]);
    }
}

/// Every visible token is drawn from the lexeme stream: from any scan
/// position, the next token is either the zero-width `EOF`, or exactly the
/// first entry of `spec_lexemes` that is not a whitespace run.
pub proof fn lemma_next_token_in_lexemes(src: Seq<char>, i: int)
    requires
        0 <= i <= src.len(),
    ensures
        ({
            let ls = spec_lexemes(src, i);
            let (kind, lo, hi) = spec_next_token(src, i);
            kind != TokenKind::EOF ==> exists|k: int|
                0 <= k < ls.len() && (#[trigger] ls[k]) == (kind, lo, hi)
                    && (forall|m: int| 0 <= m < k ==> (#[trigger] ls[m]).0
                        == TokenKind::WHITESPACE)
        }),
    decreases src.len() - i,
{
    let ls = spec_lexemes(src, i);
    let (kind, lo, hi) = spec_next_token(src, i);
    if i < src.len() && kind != TokenKind::EOF {
        let (k0, e) = spec_lexeme(src, i);
        lemma_lexeme(src, i);
        let tail = spec_lexemes(src, e);
        assert(ls[0] == (k0, i, e));
        assert(forall|k: int| 0 <= k < tail.len() ==> ls[k + 1] == tail[k]);
        if k0 == TokenKind::WHITESPACE {
            lemma_next_token_in_lexemes(src, e);
            let k = choose|k: int|
                0 <= k < tail.len() && (#[trigger] tail[k]) == (kind, lo, hi)
                    && (forall|m: int| 0 <= m < k ==> (#[trigger] tail[m]).0
                        == TokenKind::WHITESPACE);
            assert(ls[k + 1] == (kind, lo, hi));
            assert(forall|m: int| 1 <= m < k + 1 ==> (#[trigger] ls[m]).0
                == TokenKind::WHITESPACE);
        } else {
            assert(ls[0] == (kind, lo, hi));
        }
    }
}

/// Idempotent end of input: a scan that yields `EOF` stands at the end of
/// the source with a zero-width span, and scanning again from where it
/// left off yields the identical `EOF` token, forever.
pub proof fn lemma_eof_idempotent(src: Seq<char>, i: int)
    requires
        0 <= i <= src.len(),
        spec_next_token(src, i).0 == TokenKind::EOF,
    ensures
        spec_next_token(src, i) == (TokenKind::EOF, src.len() as int, src.len() as int),
        spec_next_token(src, spec_next_token(src, i).2) == spec_next_token(src, i),
{
    lemma_next_token(src, i);
}

/// A source that is one identifier-shaped lexeme — a letter followed by
/// letters and digits — scans to exactly one token: its keyword kind (or
/// `ID`) spanning the whole source.
pub proof fn lemma_single_identifier(src: Seq<char>)
    requires
        src.len() >= 1,
        spec_is_letter(src[0]),
        forall|j: int| 1 <= j < src.len() ==> spec_is_letter(src[j]) || spec_is_digit(src[j]),
    ensures
        spec_next_token(src, 0) == (spec_keyword_kind(src), 0int, src.len() as int),
{
    lemma_ident_end(src, 1);
    assert(spec_ident_end(src, 1) == src.len());
    assert(src.subrange(0, src.len() as int) == src) by {
        assert(src.subrange(0, src.len() as int) =~= src);
    }
}

/// Keyword exactness, one direction: each of the sixteen reserved words,
/// as a lexeme, yields its specific kind, never `ID`.
pub proof fn lemma_keyword_kinds()
    ensures
        spec_keyword_kind("array"@) == TokenKind::ARRAY,
        spec_keyword_kind("if"@) == TokenKind::IF,
        spec_keyword_kind("then"@) == TokenKind::THEN,
        spec_keyword_kind("else"@) == TokenKind::ELSE,
        spec_keyword_kind("while"@) == TokenKind::WHILE,
        spec_keyword_kind("for"@) == TokenKind::FOR,
        spec_keyword_kind("to"@) == TokenKind::TO,
        spec_keyword_kind("do"@) == TokenKind::DO,
        spec_keyword_kind("let"@) == TokenKind::LET,
        spec_keyword_kind("in"@) == TokenKind::IN,
        spec_keyword_kind("end"@) == TokenKind::END,
        spec_keyword_kind("of"@) == TokenKind::OF,
        spec_keyword_kind("break"@) == TokenKind::BREAK,
        spec_keyword_kind("function"@) == TokenKind::FUNCTION,
        spec_keyword_kind("var"@) == TokenKind::VAR,
        spec_keyword_kind("type"@) == TokenKind::TYPE,
        spec_keyword_kind("nil"@) == TokenKind::NIL,
{
    // Revealing the literals gives their lengths and characters; the
    // lengths separate most keywords, and the first two characters
    // separate the rest.
    reveal_strlit("array");
    reveal_strlit("if");
    reveal_strlit("then");
    reveal_strlit("else");
    reveal_strlit("while");
    reveal_strlit("for");
    reveal_strlit("to");
    reveal_strlit("do");
    reveal_strlit("let");
    reveal_strlit("in");
    reveal_strlit("end");
    reveal_strlit("of");
    reveal_strlit("break");
    reveal_strlit("function");
    reveal_strlit("var");
    reveal_strlit("type");
    reveal_strlit("nil");
    assert("array"@.len() == 5);
    assert("if"@.len() == 2);
    assert("then"@.len() == 4);
    assert("else"@.len() == 4);
    assert("while"@.len() == 5);
    assert("for"@.len() == 3);
    assert("to"@.len() == 2);
    assert("do"@.len() == 2);
    assert("let"@.len() == 3);
    assert("in"@.len() == 2);
    assert("end"@.len() == 3);
    assert("of"@.len() == 2);
    assert("break"@.len() == 5);
    assert("function"@.len() == 8);
    assert("var"@.len() == 3);
    assert("type"@.len() == 4);
    assert("nil"@.len() == 3);
    assert("array"@[0] == 'a' && "array"@[1] == 'r');
    assert("if"@[0] == 'i' && "if"@[1] == 'f');
    assert("then"@[0] == 't' && "then"@[1] == 'h');
    assert("else"@[0] == 'e' && "else"@[1] == 'l');
    assert("while"@[0] == 'w' && "while"@[1] == 'h');
    assert("for"@[0] == 'f' && "for"@[1] == 'o');
    assert("to"@[0] == 't' && "to"@[1] == 'o');
    assert("do"@[0] == 'd' && "do"@[1] == 'o');
    assert("let"@[0] == 'l' && "let"@[1] == 'e');
    assert("in"@[0] == 'i' && "in"@[1] == 'n');
    assert("end"@[0] == 'e' && "end"@[1] == 'n');
    assert("of"@[0] == 'o' && "of"@[1] == 'f');
    assert("break"@[0] == 'b' && "break"@[1] == 'r');
    assert("function"@[0] == 'f' && "function"@[1] == 'u');
    assert("var"@[0] == 'v' && "var"@[1] == 'a');
    assert("type"@[0] == 't' && "type"@[1] == 'y');
    assert("nil"@[0] == 'n' && "nil"@[1] == 'i');
}

/// Keyword exactness, the other direction: the classifier leaves `ID` only
/// for a lexeme that is, character for character, one of the sixteen
/// reserved words.  Any other letter-led lexeme — a case variant of a
/// keyword included — is `ID`.
pub proof fn lemma_keyword_only_exact(s: Seq<char>)
    ensures
        spec_keyword_kind(s) != TokenKind::ID ==> {
            ||| s == "array"@
            ||| s == "if"@
            ||| s == "then"@
            ||| s == "else"@
            ||| s == "while"@
            ||| s == "for"@
            ||| s == "to"@
            ||| s == "do"@
            ||| s == "let"@
            ||| s == "in"@
            ||| s == "end"@
            ||| s == "of"@
            ||| s == "break"@
            ||| s == "function"@
            ||| s == "var"@
            ||| s == "type"@
            ||| s == "nil"@
        },
{
}

} // verus!
