//! The tokenizer: a [`StringReader`] built on one [`Cursor`] plus an
//! absolute position counter.  Each call to [`StringReader::next_token`]
//! classifies and consumes exactly one token's worth of input (skipping
//! whitespace internally, surfacing comments) and returns it with its
//! `[lo, hi)` character-offset span.

use vstd::prelude::*;
use vstd::string::StrSliceExecFns;

use crate::chars::{is_digit, is_ident_char, is_letter, is_whitespace};
use crate::cursor::Cursor;
use crate::scan::{lemma_lexeme, spec_colon, spec_comment_scan, spec_greater_than};
use crate::scan::{spec_ident_end, spec_keyword_kind, spec_less_than};
use crate::scan::{spec_next_token, spec_num_scan, spec_slash, spec_str_scan, spec_ws_end};
use crate::token::{Token, TokenKind, TokenPos};

verus! {

/// The tokenizer over one borrowed source text.
///
/// It owns the full source (read-only), one cursor over it, and the
/// absolute scan position.  It is exhausted by repeated `next_token` calls:
/// once `EOF` is returned, every further call returns the same zero-width
/// `EOF` token.
pub struct StringReader<'a> {
    src: &'a str,
    cursor: Cursor<'a>,
    pos: u32,
}

/// Mid-token consistency: the cursor walks this reader's source, the source
/// fits the `u32` position space, and the absolute position plus the
/// characters consumed since the last reset is exactly the cursor position.
spec fn scanning(r: StringReader) -> bool {
    &&& r.cursor.wf()
    &&& r.cursor.text() == r.src@
    &&& r.src@.len() <= u32::MAX
    &&& r.pos as int + r.cursor.consumed() == r.cursor.off()
    &&& 0 <= r.cursor.consumed()
    &&& r.cursor.off() <= r.src@.len()
}

/// What every sub-scanner guarantees: the source and the token-start
/// position are untouched, consistency is kept, and the cursor now stands
/// at `e`.
spec fn advanced(pre: StringReader, post: StringReader, e: int) -> bool {
    &&& scanning(post)
    &&& post.src@ == pre.src@
    &&& post.pos == pre.pos
    &&& post.cursor.off() == e
}

impl<'a> StringReader<'a> {
    /// The source text under scan, as a sequence of characters.
    pub closed spec fn text(self) -> Seq<char> {
        self.src@
    }

    /// The absolute scan position: every character before it has been
    /// consumed, every character from it on is still to come.
    pub closed spec fn offset(self) -> int {
        self.pos as int
    }

    /// The reader's invariant between `next_token` calls.
    pub closed spec fn wf(self) -> bool {
        &&& scanning(self)
        &&& self.cursor.consumed() == 0
    }

    /// A tokenizer positioned at offset 0 of `src`.
    ///
    /// The source must fit the `u32` position space of [`TokenPos`].
    pub fn new(src: &'a str) -> (r: StringReader<'a>)
        requires
            src@.len() <= u32::MAX,
        ensures
            r.wf(),
            r.text() == src@,
            r.offset() == 0,
    {
        StringReader { src, cursor: Cursor::new(src), pos: 0 }
    }

    /// Returns the next visible token: exactly the `(kind, lo, hi)` that
    /// [`spec_next_token`] gives at the current position.  Whitespace is
    /// skipped (it consumes position but is never surfaced), comments are
    /// surfaced, and once the source is exhausted every call returns the
    /// zero-width `EOF` token at the end of the source.
    pub fn next_token(&mut self) -> (t: Token)
        requires
            old(self).wf(),
        ensures
            final(self).wf(),
            final(self).text() == old(self).text(),
            t.kind != TokenKind::WHITESPACE,
            ({
                let (kind, lo, hi) = spec_next_token(old(self).text(), old(self).offset());
                &&& t.kind == kind
                &&& t.pos.0 as int == lo
                &&& t.pos.1 as int == hi
                &&& final(self).offset() == hi
            }),
    {
        loop
            invariant
                self.wf(),
                self.src@ == old(self).src@,
                old(self).pos <= self.pos,
                spec_next_token(self.src@, old(self).pos as int)
                    == spec_next_token(self.src@, self.pos as int),
            decreases self.src@.len() - self.pos,
        {
            let start = self.pos;
            let ch = match self.cursor.bump() {
                Some(c) => c,
                None => {
                    return Token::new(TokenKind::EOF, TokenPos::new(self.pos, self.pos));
                },
            };

            // Classify, advancing the cursor past the token in the process.
            let kind: TokenKind = if is_whitespace(ch) {
                self.whitespace()
            } else if ch == ',' {
                TokenKind::COMMA
            } else if ch == ';' {
                TokenKind::SEMICOLON
            } else if ch == '(' {
                TokenKind::LPAREN
            } else if ch == ')' {
                TokenKind::RPAREN
            } else if ch == '[' {
                TokenKind::LBRACK
            } else if ch == ']' {
                TokenKind::RBRACK
            } else if ch == '{' {
                TokenKind::RCURLY
            } else if ch == '}' {
                TokenKind::LCURLY
            } else if ch == '.' {
                TokenKind::DOT
            } else if ch == ':' {
                self.colon()
            } else if ch == '+' {
                TokenKind::PLUS
            } else if ch == '-' {
                TokenKind::MINUS
            } else if ch == '*' {
                TokenKind::TIMES
            } else if ch == '%' {
                TokenKind::PERCENT
            } else if ch == '=' {
                TokenKind::EQ
            } else if ch == '<' {
                self.less_than()
            } else if ch == '>' {
                self.greater_than()
            } else if ch == '&' {
                TokenKind::AND
            } else if ch == '|' {
                TokenKind::OR
            } else if is_digit(ch) {
                self.cook_number()
            } else if ch == '"' {
                self.cook_string()
            } else if ch == '/' {
                self.slash()
            } else if is_letter(ch) {
                self.cook_identifier(start)
            } else {
                TokenKind::UNKNOWN
            };

            let token_len = self.cursor.len_advanced();
            self.cursor.reset_len();
            self.pos = self.pos + token_len;
            proof {
                lemma_lexeme(self.src@, start as int);
            }

            if kind == TokenKind::WHITESPACE {
                continue;
            }

            return Token::new(kind, TokenPos::new(start, self.pos));
        }
    }

    /// Consumes the maximal whitespace run the first bumped character
    /// started, and hands back the internal marker that restarts the
    /// dispatch loop.
    fn whitespace(&mut self) -> (k: TokenKind)
        requires
            scanning(*old(self)),
        ensures
            advanced(*old(self), *final(self), spec_ws_end(old(self).src@, old(self).cursor.off())),
            k == TokenKind::WHITESPACE,
    {
        while is_whitespace(self.cursor.peek_first())
            invariant
                scanning(*self),
                self.src@ == old(self).src@,
                self.pos == old(self).pos,
                spec_ws_end(self.src@, old(self).cursor.off())
                    == spec_ws_end(self.src@, self.cursor.off()),
            decreases self.src@.len() - self.cursor.off(),
        {
            self.cursor.bump();
        }
        TokenKind::WHITESPACE
    }

    /// After a leading `:`: a following `=` is consumed for `ASSIGN`,
    /// anything else leaves `COLON`.
    fn colon(&mut self) -> (k: TokenKind)
        requires
            scanning(*old(self)),
        ensures
            ({
                let (kind, e) = spec_colon(old(self).src@, old(self).cursor.off());
                &&& advanced(*old(self), *final(self), e)
                &&& k == kind
            }),
    {
        if self.cursor.peek_first() == '=' {
            self.cursor.bump();
            TokenKind::ASSIGN
        } else {
            TokenKind::COLON
        }
    }

    /// After a leading `<`: `<>` is `NEQ`, `<=` is `LE`, anything else `LT`.
    fn less_than(&mut self) -> (k: TokenKind)
        requires
            scanning(*old(self)),
        ensures
            ({
                let (kind, e) = spec_less_than(old(self).src@, old(self).cursor.off());
                &&& advanced(*old(self), *final(self), e)
                &&& k == kind
            }),
    {
        let c = self.cursor.peek_first();
        if c == '>' {
            self.cursor.bump();
            TokenKind::NEQ
        } else if c == '=' {
            self.cursor.bump();
            TokenKind::LE
        } else {
            TokenKind::LT
        }
    }

    /// After a leading `>`: `>=` is `GE`, anything else `GT`.
    fn greater_than(&mut self) -> (k: TokenKind)
        requires
            scanning(*old(self)),
        ensures
            ({
                let (kind, e) = spec_greater_than(old(self).src@, old(self).cursor.off());
                &&& advanced(*old(self), *final(self), e)
                &&& k == kind
            }),
    {
        if self.cursor.peek_first() == '=' {
            self.cursor.bump();
            TokenKind::GE
        } else {
            TokenKind::GT
        }
    }

    /// After a leading digit: digits extend the literal, one `.` turns it
    /// into a float, a second `.` (or any other character) ends it.
    fn cook_number(&mut self) -> (k: TokenKind)
        requires
            scanning(*old(self)),
        ensures
            ({
                let (e, decimal_found) = spec_num_scan(old(self).src@, old(self).cursor.off(), false);
                &&& advanced(*old(self), *final(self), e)
                &&& k == (if decimal_found { TokenKind::FLOAT } else { TokenKind::INT })
            }),
    {
        let mut decimal_found = false;
        loop
            invariant
                scanning(*self),
                self.src@ == old(self).src@,
                self.pos == old(self).pos,
                spec_num_scan(self.src@, old(self).cursor.off(), false)
                    == spec_num_scan(self.src@, self.cursor.off(), decimal_found),
            ensures
                scanning(*self),
                self.src@ == old(self).src@,
                self.pos == old(self).pos,
                spec_num_scan(self.src@, old(self).cursor.off(), false)
                    == (self.cursor.off(), decimal_found),
            decreases self.src@.len() - self.cursor.off(),
        {
            let c = self.cursor.peek_first();
            if is_digit(c) {
                self.cursor.bump();
            } else if c == '.' {
                if decimal_found {
                    break;
                }
                decimal_found = true;
                self.cursor.bump();
            } else {
                break;
            }
        }
        if !decimal_found {
            TokenKind::INT
        } else {
            TokenKind::FLOAT
        }
    }

    /// After the opening quote: consumes until a closing `"` (`STRING`) or
    /// end of input (`UNKNOWN`); a backslash immediately followed by `\` or
    /// `"` is consumed as an escape pair.
    fn cook_string(&mut self) -> (k: TokenKind)
        requires
            scanning(*old(self)),
        ensures
            ({
                let (e, terminated) = spec_str_scan(old(self).src@, old(self).cursor.off());
                &&& advanced(*old(self), *final(self), e)
                &&& k == (if terminated { TokenKind::STRING } else { TokenKind::UNKNOWN })
            }),
    {
        loop
            invariant
                scanning(*self),
                self.src@ == old(self).src@,
                self.pos == old(self).pos,
                spec_str_scan(self.src@, old(self).cursor.off())
                    == spec_str_scan(self.src@, self.cursor.off()),
            ensures
                scanning(*self),
                self.src@ == old(self).src@,
                self.pos == old(self).pos,
                spec_str_scan(self.src@, old(self).cursor.off()) == (self.cursor.off(), false),
            decreases self.src@.len() - self.cursor.off(),
        {
            let c = match self.cursor.bump() {
                Some(c) => c,
                None => {
                    break;
                },
            };
            if c == '"' {
                return TokenKind::STRING;
            }
            if c == '\\' {
                let p = self.cursor.peek_first();
                if p == '\\' || p == '"' {
                    // Bump again to skip the escaped character.
                    self.cursor.bump();
                }
            }
        }
        TokenKind::UNKNOWN
    }

    /// After a leading `/`: a following `*` opens a nested comment,
    /// anything else is plain division.
    fn slash(&mut self) -> (k: TokenKind)
        requires
            scanning(*old(self)),
        ensures
            ({
                let (kind, e) = spec_slash(old(self).src@, old(self).cursor.off());
                &&& advanced(*old(self), *final(self), e)
                &&& k == kind
            }),
    {
        if self.cursor.peek_first() == '*' {
            self.cook_comment()
        } else {
            TokenKind::DIVIDE
        }
    }

    /// Nested-comment scanning, entered with the `*` of the opening `/*`
    /// still unconsumed.  A depth counter starts at one, rises on each
    /// further `/*`, falls on each `*/`; scanning ends when the depth
    /// reaches zero, or at end of input as best-effort recovery.
    fn cook_comment(&mut self) -> (k: TokenKind)
        requires
            scanning(*old(self)),
        ensures
            advanced(
                *old(self),
                *final(self),
                spec_comment_scan(old(self).src@, old(self).cursor.off(), 1),
            ),
            k == TokenKind::COMMENT,
    {
        let mut comment_level: usize = 1;
        loop
            invariant_except_break
                comment_level >= 1,
                2 * (comment_level - 1) <= self.cursor.off() - old(self).cursor.off(),
                spec_comment_scan(self.src@, old(self).cursor.off(), 1)
                    == spec_comment_scan(self.src@, self.cursor.off(), comment_level as int),
            invariant
                scanning(*self),
                self.src@ == old(self).src@,
                self.pos == old(self).pos,
                0 <= old(self).cursor.off() <= self.cursor.off(),
            ensures
                scanning(*self),
                self.src@ == old(self).src@,
                self.pos == old(self).pos,
                spec_comment_scan(self.src@, old(self).cursor.off(), 1) == self.cursor.off(),
            decreases self.src@.len() - self.cursor.off(),
        {
            let c1 = self.cursor.peek_first();
            let c2 = self.cursor.peek_second();
            if c1 == '*' && c2 == '/' {
                comment_level = comment_level - 1;
                self.cursor.bump();
                self.cursor.bump();
                if comment_level == 0 {
                    break;
                }
            } else if c1 == '/' && c2 == '*' {
                comment_level = comment_level + 1;
                self.cursor.bump();
                self.cursor.bump();
            } else {
                match self.cursor.bump() {
                    Some(_) => {},
                    None => {
                        if self.cursor.is_eof() {
                            break;
                        }
                    },
                }
            }
        }
        TokenKind::COMMENT
    }

    /// After a leading letter: consumes the maximal letter-and-digit run,
    /// then classifies the covered lexeme against the sixteen-keyword
    /// table; anything unmatched is `ID`.
    fn cook_identifier(&mut self, start: u32) -> (k: TokenKind)
        requires
            scanning(*old(self)),
            start == old(self).pos,
        ensures
            ({
                let e = spec_ident_end(old(self).src@, old(self).cursor.off());
                &&& advanced(*old(self), *final(self), e)
                &&& k == spec_keyword_kind(old(self).src@.subrange(start as int, e))
            }),
    {
        while is_ident_char(self.cursor.peek_first())
            invariant
                scanning(*self),
                self.src@ == old(self).src@,
                self.pos == old(self).pos,
                spec_ident_end(self.src@, old(self).cursor.off())
                    == spec_ident_end(self.src@, self.cursor.off()),
            decreases self.src@.len() - self.cursor.off(),
        {
            self.cursor.bump();
        }

        let end: u32 = start + self.cursor.len_advanced();
        let lexeme: &str = self.src.substring_char(start as usize, end as usize);

        if str_eq(lexeme, "array") {
            TokenKind::ARRAY
        } else if str_eq(lexeme, "if") {
            TokenKind::IF
        } else if str_eq(lexeme, "then") {
            TokenKind::THEN
        } else if str_eq(lexeme, "else") {
            TokenKind::ELSE
        } else if str_eq(lexeme, "while") {
            TokenKind::WHILE
        } else if str_eq(lexeme, "for") {
            TokenKind::FOR
        } else if str_eq(lexeme, "to") {
            TokenKind::TO
        } else if str_eq(lexeme, "do") {
            TokenKind::DO
        } else if str_eq(lexeme, "let") {
            TokenKind::LET
        } else if str_eq(lexeme, "in") {
            TokenKind::IN
        } else if str_eq(lexeme, "end") {
            TokenKind::END
        } else if str_eq(lexeme, "of") {
            TokenKind::OF
        } else if str_eq(lexeme, "break") {
            TokenKind::BREAK
        } else if str_eq(lexeme, "function") {
            TokenKind::FUNCTION
        } else if str_eq(lexeme, "var") {
            TokenKind::VAR
        } else if str_eq(lexeme, "type") {
            TokenKind::TYPE
        } else if str_eq(lexeme, "nil") {
            TokenKind::NIL
        } else {
            TokenKind::ID
        }
    }
}

/// Character-for-character string equality, decided by walking both
/// strings; used to hold identifier lexemes against the keyword table.
fn str_eq(a: &str, b: &str) -> (r: bool)
    ensures
        r == (a@ == b@),
{
    let n = a.unicode_len();
    if n != b.unicode_len() {
        return false;
    }
    let mut i: usize = 0;
    while i < n
        invariant
            i <= n,
            n == a@.len(),
            n == b@.len(),
            forall|j: int| 0 <= j < i ==> a@[j] == b@[j],
        decreases n - i,
    {
        if a.get_char(i) != b.get_char(i) {
            return false;
        }
        i = i + 1;
    }
    proof {
        assert(a@ =~= b@);
    }
    true
}

} // verus!
