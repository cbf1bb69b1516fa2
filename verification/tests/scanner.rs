use minilex::reader::StringReader;
use minilex::token::{Token, TokenKind, TokenPos};

/// Scans `src` to exhaustion and returns every visible token including the
/// final `EOF`, as `(kind, lo, hi)` triples.
fn scan(src: &str) -> Vec<(TokenKind, u32, u32)> {
    let mut reader = StringReader::new(src);
    let mut out = Vec::new();
    loop {
        let t = reader.next_token();
        let done = t.kind == TokenKind::EOF;
        out.push((t.kind, t.pos.0, t.pos.1));
        if done {
            break;
        }
    }
    out
}

/// The kinds alone, `EOF` included.
fn kinds(src: &str) -> Vec<TokenKind> {
    scan(src).into_iter().map(|(k, _, _)| k).collect()
}

#[test]
fn empty_source_gives_zero_width_eof() {
    assert_eq!(scan(""), vec![(TokenKind::EOF, 0, 0)]);
}

#[test]
fn whitespace_only_source_gives_eof_at_end() {
    assert_eq!(scan("  \t\n"), vec![(TokenKind::EOF, 4, 4)]);
}

#[test]
fn eof_is_idempotent() {
    let src = "x ";
    let mut reader = StringReader::new(src);
    assert_eq!(reader.next_token(), Token::new(TokenKind::ID, TokenPos::new(0, 1)));
    let eof = reader.next_token();
    assert_eq!(eof, Token::new(TokenKind::EOF, TokenPos::new(2, 2)));
    for _ in 0..5 {
        assert_eq!(reader.next_token(), eof);
    }
}

#[test]
fn keywords_scan_to_their_kinds() {
    let table = [
        ("array", TokenKind::ARRAY),
        ("if", TokenKind::IF),
        ("then", TokenKind::THEN),
        ("else", TokenKind::ELSE),
        ("while", TokenKind::WHILE),
        ("for", TokenKind::FOR),
        ("to", TokenKind::TO),
        ("do", TokenKind::DO),
        ("let", TokenKind::LET),
        ("in", TokenKind::IN),
        ("end", TokenKind::END),
        ("of", TokenKind::OF),
        ("break", TokenKind::BREAK),
        ("function", TokenKind::FUNCTION),
        ("var", TokenKind::VAR),
        ("type", TokenKind::TYPE),
        ("nil", TokenKind::NIL),
    ];
    for (word, kind) in table {
        let tokens = scan(word);
        assert_eq!(tokens.len(), 2, "{word}");
        assert_eq!(tokens[0], (kind, 0, word.len() as u32), "{word}");
    }
}

#[test]
fn keyword_case_variants_are_identifiers() {
    for word in ["If", "IF", "Array", "WHILE", "nIl", "Function", "lET"] {
        let tokens = scan(word);
        assert_eq!(tokens[0], (TokenKind::ID, 0, word.len() as u32), "{word}");
    }
}

#[test]
fn keywords_embedded_in_identifiers_are_identifiers() {
    assert_eq!(kinds("ifx"), vec![TokenKind::ID, TokenKind::EOF]);
    assert_eq!(kinds("xif"), vec![TokenKind::ID, TokenKind::EOF]);
    assert_eq!(kinds("let0"), vec![TokenKind::ID, TokenKind::EOF]);
}

#[test]
fn operator_disambiguation_table() {
    let table = [
        (":=", TokenKind::ASSIGN),
        (":", TokenKind::COLON),
        ("<>", TokenKind::NEQ),
        ("<=", TokenKind::LE),
        ("<", TokenKind::LT),
        (">=", TokenKind::GE),
        (">", TokenKind::GT),
    ];
    for (src, kind) in table {
        let tokens = scan(src);
        assert_eq!(tokens.len(), 2, "{src}");
        assert_eq!(tokens[0], (kind, 0, src.len() as u32), "{src}");
    }
}

#[test]
fn colon_without_equals_leaves_colon() {
    assert_eq!(
        scan(":x"),
        vec![
            (TokenKind::COLON, 0, 1),
            (TokenKind::ID, 1, 2),
            (TokenKind::EOF, 2, 2),
        ]
    );
}

#[test]
fn single_char_punctuation_and_operators() {
    let table = [
        (",", TokenKind::COMMA),
        (";", TokenKind::SEMICOLON),
        ("(", TokenKind::LPAREN),
        (")", TokenKind::RPAREN),
        ("[", TokenKind::LBRACK),
        ("]", TokenKind::RBRACK),
        (".", TokenKind::DOT),
        ("+", TokenKind::PLUS),
        ("-", TokenKind::MINUS),
        ("*", TokenKind::TIMES),
        ("%", TokenKind::PERCENT),
        ("=", TokenKind::EQ),
        ("&", TokenKind::AND),
        ("|", TokenKind::OR),
    ];
    for (src, kind) in table {
        assert_eq!(scan(src)[0], (kind, 0, 1), "{src}");
    }
}

/// The scanning table pairs each curly brace with the opposite kind name;
/// this pins the behaviour as it stands.
#[test]
fn curly_brace_kinds_are_swapped() {
    assert_eq!(scan("{")[0], (TokenKind::RCURLY, 0, 1));
    assert_eq!(scan("}")[0], (TokenKind::LCURLY, 0, 1));
}

#[test]
fn number_split_behavior() {
    assert_eq!(
        scan("3.14.15"),
        vec![
            (TokenKind::FLOAT, 0, 4),
            (TokenKind::DOT, 4, 5),
            (TokenKind::INT, 5, 7),
            (TokenKind::EOF, 7, 7),
        ]
    );
}

#[test]
fn integer_and_float_literals() {
    assert_eq!(scan("10")[0], (TokenKind::INT, 0, 2));
    assert_eq!(scan("3.14")[0], (TokenKind::FLOAT, 0, 4));
    assert_eq!(scan("3.")[0], (TokenKind::FLOAT, 0, 2));
    assert_eq!(scan("0")[0], (TokenKind::INT, 0, 1));
}

#[test]
fn digits_then_letters_split_into_int_and_id() {
    assert_eq!(
        scan("12abc"),
        vec![
            (TokenKind::INT, 0, 2),
            (TokenKind::ID, 2, 5),
            (TokenKind::EOF, 5, 5),
        ]
    );
}

#[test]
fn leading_minus_is_its_own_token() {
    assert_eq!(
        kinds("-7"),
        vec![TokenKind::MINUS, TokenKind::INT, TokenKind::EOF]
    );
}

#[test]
fn nested_comment_closure() {
    let src = "/* a /* b */ c */ 5";
    assert_eq!(
        scan(src),
        vec![
            (TokenKind::COMMENT, 0, 17),
            (TokenKind::INT, 18, 19),
            (TokenKind::EOF, 19, 19),
        ]
    );
}

#[test]
fn comment_tokens_are_surfaced_not_swallowed() {
    assert_eq!(
        scan("/*x*/5"),
        vec![
            (TokenKind::COMMENT, 0, 5),
            (TokenKind::INT, 5, 6),
            (TokenKind::EOF, 6, 6),
        ]
    );
}

#[test]
fn unterminated_comment_runs_to_end_of_input() {
    assert_eq!(
        scan("/* abc"),
        vec![(TokenKind::COMMENT, 0, 6), (TokenKind::EOF, 6, 6)]
    );
}

/// The opening `/*` leaves its `*` unconsumed when comment scanning starts,
/// so the three characters `/*/` already close the comment; this pins the
/// behaviour as it stands.
#[test]
fn minimal_comment_shares_its_star() {
    assert_eq!(
        scan("/*/"),
        vec![(TokenKind::COMMENT, 0, 3), (TokenKind::EOF, 3, 3)]
    );
}

#[test]
fn slash_without_star_is_divide() {
    assert_eq!(
        scan("8/2"),
        vec![
            (TokenKind::INT, 0, 1),
            (TokenKind::DIVIDE, 1, 2),
            (TokenKind::INT, 2, 3),
            (TokenKind::EOF, 3, 3),
        ]
    );
}

#[test]
fn string_escape_pass_through() {
    // "ab\"cd" — the escaped quote must not terminate the literal.
    let src = "\"ab\\\"cd\"";
    assert_eq!(
        scan(src),
        vec![(TokenKind::STRING, 0, 8), (TokenKind::EOF, 8, 8)]
    );
}

#[test]
fn string_with_unrecognized_escape_passes_through() {
    // "a\nb" — backslash-n is two ordinary characters to the lexer.
    let src = "\"a\\nb\"";
    assert_eq!(
        scan(src),
        vec![(TokenKind::STRING, 0, 6), (TokenKind::EOF, 6, 6)]
    );
}

#[test]
fn unterminated_string_recovery() {
    assert_eq!(
        scan("\"abc"),
        vec![(TokenKind::UNKNOWN, 0, 4), (TokenKind::EOF, 4, 4)]
    );
}

#[test]
fn escaped_quote_at_end_leaves_string_unterminated() {
    // "\" — the escape pair consumes the closing quote, so the literal
    // never terminates.
    let src = "\"\\\"";
    assert_eq!(
        scan(src),
        vec![(TokenKind::UNKNOWN, 0, 3), (TokenKind::EOF, 3, 3)]
    );
}

#[test]
fn unknown_characters_are_single_char_tokens() {
    for src in ["#", "?", "@", "^", "~"] {
        assert_eq!(
            scan(src),
            vec![(TokenKind::UNKNOWN, 0, 1), (TokenKind::EOF, 1, 1)],
            "{src}"
        );
    }
}

#[test]
fn end_to_end_let_binding() {
    assert_eq!(
        scan("let x := 10"),
        vec![
            (TokenKind::LET, 0, 3),
            (TokenKind::ID, 4, 5),
            (TokenKind::ASSIGN, 6, 8),
            (TokenKind::INT, 9, 11),
            (TokenKind::EOF, 11, 11),
        ]
    );
}

#[test]
fn unicode_whitespace_is_skipped() {
    // LINE SEPARATOR and NEXT LINE count as whitespace (one character each).
    assert_eq!(scan("\u{2028}if")[0], (TokenKind::IF, 1, 3));
    assert_eq!(scan("\u{0085},")[0], (TokenKind::COMMA, 1, 2));
}

/// Coverage/partition: the spans of the visible tokens, together with the
/// whitespace gaps between them, reconstruct the whole source with no gaps
/// and no overlaps, and every skipped character really is whitespace.
#[test]
fn spans_partition_the_source() {
    let whitespace =
        ['\t', '\n', '\u{000B}', '\u{000C}', '\r', ' ', '\u{0085}', '\u{200E}', '\u{200F}',
            '\u{2028}', '\u{2029}'];
    let sources = [
        "let x := 10 in /* add /* one */ */ x + 1.5 end",
        "  \"a string\"galore<>12.7.8:=:#/**/|&\u{2028}\u{2029}",
        "",
        "   ",
        "\"unterminated",
        "/* unterminated",
    ];
    for src in sources {
        let chars: Vec<char> = src.chars().collect();
        let tokens = scan(src);
        let mut at: u32 = 0;
        for (kind, lo, hi) in &tokens {
            // the gap before each token is exactly skipped whitespace
            assert!(at <= *lo, "{src}");
            for j in at..*lo {
                assert!(whitespace.contains(&chars[j as usize]), "{src}");
            }
            if *kind == TokenKind::EOF {
                assert_eq!(*lo, chars.len() as u32, "{src}");
                assert_eq!(*hi, *lo, "{src}");
            } else {
                assert!(*lo < *hi, "{src}");
            }
            at = *hi;
        }
        assert_eq!(at, chars.len() as u32, "{src}");
    }
}
