//! The low-level character walker: bounded lookahead, single-character
//! consumption, a consumed-count since the last reset, and end-of-input
//! detection.  The cursor owns no scanning semantics.

use vstd::prelude::*;
use vstd::string::StrSliceExecFns;

use crate::scan::spec_char_at;

verus! {

/// A character-stream walker over borrowed source text.
///
/// Rather than holding a shrinking tail of the source, the cursor keeps the
/// whole text together with the index of the next unconsumed character and
/// a counter of characters consumed since the last [`reset_len`](Cursor::reset_len).
pub struct Cursor<'a> {
    src: &'a str,
    /// Number of characters in `src`, fixed at construction.
    len: usize,
    /// Index (in characters) of the next character to consume.
    off: usize,
    /// Characters consumed since the last reset.
    consumed: usize,
}

impl<'a> Cursor<'a> {
    /// The source text the cursor walks, as a sequence of characters.
    pub closed spec fn text(self) -> Seq<char> {
        self.src@
    }

    /// The index of the next character to consume.
    pub closed spec fn off(self) -> int {
        self.off as int
    }

    /// Characters consumed since the last reset.
    pub closed spec fn consumed(self) -> int {
        self.consumed as int
    }

    /// The cursor's internal consistency: the consumed count never exceeds
    /// the position, which never leaves the source.
    pub closed spec fn wf(self) -> bool {
        &&& self.len == self.src@.len()
        &&& self.consumed <= self.off <= self.src@.len()
    }

    /// A fresh cursor at the start of `src`.
    pub fn new(src: &'a str) -> (c: Self)
        ensures
            c.wf(),
            c.text() == src@,
            c.off() == 0,
            c.consumed() == 0,
    {
        let len = src.unicode_len();
        Cursor { src, len, off: 0, consumed: 0 }
    }

    /// Consumes and returns the next character, or `None` at end of input.
    /// Every consumed character advances the consumed count by one.
    pub fn bump(&mut self) -> (r: Option<char>)
        requires
            old(self).wf(),
        ensures
            final(self).wf(),
            final(self).text() == old(self).text(),
            old(self).off() < old(self).text().len() ==> {
                &&& r == Some(old(self).text()[old(self).off()])
                &&& final(self).off() == old(self).off() + 1
                &&& final(self).consumed() == old(self).consumed() + 1
            },
            old(self).off() == old(self).text().len() ==> {
                &&& r is None
                &&& *final(self) == *old(self)
            },
    {
        if self.off < self.len {
            let c = self.src.get_char(self.off);
            self.off = self.off + 1;
            self.consumed = self.consumed + 1;
            Some(c)
        } else {
            None
        }
    }

    /// The character one position ahead, without consuming it; the NUL
    /// sentinel past the end of input.  Callers treat the sentinel as "not
    /// matched" in every dispatch arm.
    pub fn peek_first(&self) -> (c: char)
        requires
            self.wf(),
        ensures
            c == spec_char_at(self.text(), self.off()),
    {
        if self.off < self.len {
            self.src.get_char(self.off)
        } else {
            '\u{0000}'
        }
    }

    /// The character two positions ahead, without consuming; the NUL
    /// sentinel past the end of input.
    pub fn peek_second(&self) -> (c: char)
        requires
            self.wf(),
        ensures
            c == spec_char_at(self.text(), self.off() + 1),
    {
        if self.off < self.len && self.off + 1 < self.len {
            self.src.get_char(self.off + 1)
        } else {
            '\u{0000}'
        }
    }

    /// How many characters were consumed since the last reset.  The
    /// tokenizer uses this to compute each token's span length.
    pub fn len_advanced(&self) -> (n: u32)
        requires
            self.wf(),
            self.consumed() <= u32::MAX,
        ensures
            n == self.consumed(),
    {
        self.consumed as u32
    }

    /// Zeroes the consumed count, marking the start of the next token.
    pub fn reset_len(&mut self)
        requires
            old(self).wf(),
        ensures
            final(self).wf(),
            final(self).text() == old(self).text(),
            final(self).off() == old(self).off(),
            final(self).consumed() == 0,
    {
        self.consumed = 0;
    }

    /// True when no characters remain.
    pub fn is_eof(&self) -> (b: bool)
        requires
            self.wf(),
        ensures
            b == (self.off() == self.text().len()),
    {
        self.off == self.len
    }
}

} // verus!
