use vecasm::reader::{Reader, TokenKind};

/// Collects (kind, length) pairs until the first `EoF` token, exclusive.
fn lex_all(src: &str) -> Vec<(TokenKind, usize)> {
    let mut reader = Reader::new(src);
    let mut out = Vec::new();
    loop {
        let token = reader.next().expect("unexpected lexical error");
        if token.kind() == TokenKind::EoF {
            assert_eq!(token.len(), 0);
            return out;
        }
        out.push((token.kind(), token.len()));
    }
}

#[test]
fn comment_token() {
    assert_eq!(
        lex_all("# hi\n"),
        vec![(TokenKind::Comment, 4), (TokenKind::Newline, 1)]
    );
}

#[test]
fn comment_runs_to_end_of_input() {
    assert_eq!(lex_all("# hi"), vec![(TokenKind::Comment, 4)]);
}

#[test]
fn newline_token() {
    assert_eq!(lex_all("\n"), vec![(TokenKind::Newline, 1)]);
}

#[test]
fn whitespace_token() {
    assert_eq!(lex_all(" "), vec![(TokenKind::Whitespace, 1)]);
}

#[test]
fn whitespace_stops_at_newline() {
    assert_eq!(
        lex_all(" \t\r\n"),
        vec![(TokenKind::Whitespace, 3), (TokenKind::Newline, 1)]
    );
}

#[test]
fn unicode_whitespace_is_whitespace() {
    assert_eq!(lex_all("\u{a0}\u{2003}"), vec![(TokenKind::Whitespace, 2)]);
}

#[test]
fn ident_token() {
    assert_eq!(lex_all("abc_9z"), vec![(TokenKind::Ident, 6)]);
}

#[test]
fn ident_with_leading_underscore() {
    assert_eq!(lex_all("_x1"), vec![(TokenKind::Ident, 3)]);
}

#[test]
fn number_token() {
    assert_eq!(lex_all("12345"), vec![(TokenKind::Number, 5)]);
}

#[test]
fn number_then_ident() {
    assert_eq!(
        lex_all("12ab"),
        vec![(TokenKind::Number, 2), (TokenKind::Ident, 2)]
    );
}

#[test]
fn punctuation_tokens() {
    assert_eq!(
        lex_all(",.[]+"),
        vec![
            (TokenKind::Comma, 1),
            (TokenKind::Dot, 1),
            (TokenKind::LeftBracket, 1),
            (TokenKind::RightBracket, 1),
            (TokenKind::Plus, 1),
        ]
    );
}

#[test]
fn empty_source_is_eof() {
    assert_eq!(lex_all(""), vec![]);
}

#[test]
fn eof_is_stable() {
    let mut reader = Reader::new("x");
    let first = reader.next().unwrap();
    assert_eq!(first.kind(), TokenKind::Ident);
    for _ in 0..5 {
        let token = reader.next().unwrap();
        assert_eq!(token.kind(), TokenKind::EoF);
        assert_eq!(token.len(), 0);
    }
}

#[test]
fn whitespace_newline_distinction() {
    assert_eq!(
        lex_all(" \n "),
        vec![
            (TokenKind::Whitespace, 1),
            (TokenKind::Newline, 1),
            (TokenKind::Whitespace, 1),
        ]
    );
}

#[test]
fn end_to_end_mov_line() {
    assert_eq!(
        lex_all("mov r0.xy, r1.xy\n"),
        vec![
            (TokenKind::Ident, 3),
            (TokenKind::Whitespace, 1),
            (TokenKind::Ident, 2),
            (TokenKind::Dot, 1),
            (TokenKind::Ident, 2),
            (TokenKind::Comma, 1),
            (TokenKind::Whitespace, 1),
            (TokenKind::Ident, 2),
            (TokenKind::Dot, 1),
            (TokenKind::Ident, 2),
            (TokenKind::Newline, 1),
        ]
    );
}

#[test]
fn invalid_character_is_reported() {
    let mut reader = Reader::new("@");
    let err = reader.next().unwrap_err();
    assert_eq!(err.character, '@');
    assert_eq!(err.offset, 0);
}

#[test]
fn invalid_character_after_tokens() {
    let mut reader = Reader::new("ab;");
    let token = reader.next().unwrap();
    assert_eq!(token.kind(), TokenKind::Ident);
    assert_eq!(token.len(), 2);
    let err = reader.next().unwrap_err();
    assert_eq!(err.character, ';');
    assert_eq!(err.offset, 2);
    // the reader stays put, so the same error comes back again
    let again = reader.next().unwrap_err();
    assert_eq!(again, err);
}

#[test]
fn comment_spans_non_ascii_text() {
    assert_eq!(
        lex_all("# caf\u{e9}\n"),
        vec![(TokenKind::Comment, 6), (TokenKind::Newline, 1)]
    );
}
