//! A lexical scanner for a small Algol-family language.
//!
//! The scanner turns source text into an ordered stream of classified
//! tokens, each carrying a half-open `[lo, hi)` character-offset span into
//! the original source.  Scanning is total: malformed input is surfaced as
//! `UNKNOWN` (or best-effort `STRING`/`COMMENT`) tokens, never as a panic.
//!
//! - [`token`] holds the token data types.
//! - [`chars`] classifies single characters.
//! - [`scan`] is the mathematical model of scanning: spec functions that
//!   say, for every source text and position, which token comes next.
//! - [`cursor`] is the low-level character walker.
//! - [`reader`] holds the tokenizer itself, verified against [`scan`].
//! - [`laws`] proves the stream-level guarantees: token spans partition the
//!   source, end of input is idempotent, and keyword matching is exact.

pub mod chars;
pub mod cursor;
pub mod laws;
pub mod reader;
pub mod scan;
pub mod token;
