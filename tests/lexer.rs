use tablang::lexer::{LexError, Lexer, TokenKind};

#[test]
fn lexer_test_it_works() {
    let mut lexer = Lexer::new("[1024]\n>>>+-*/(1234)".into());
    let lex_result = lexer.lex();

    assert!(lex_result.is_ok());
    println!("{:?}", lex_result.unwrap().tokens);
}

#[test]
fn lexes_kinds_and_locations() {
    let mut lexer = Lexer::new("[1024]\n>>>+-*/(1234)".into());
    let tokens = lexer.lex().unwrap().tokens;
    let kinds: Vec<TokenKind> = tokens.iter().map(|t| t.kind).collect();
    assert_eq!(
        kinds,
        vec![
            TokenKind::Table(1024),
            TokenKind::MovR,
            TokenKind::MovR,
            TokenKind::MovR,
            TokenKind::Inc,
            TokenKind::Dec,
            TokenKind::Mul,
            TokenKind::Div,
            TokenKind::LParen,
            TokenKind::Number(1234),
            TokenKind::RParen,
        ]
    );
    let table = &tokens[0].loc;
    assert_eq!((table.line, table.col, table.len), (1, 1, 6));
    assert_eq!(table.span.iter().collect::<String>(), "[1024]");
    let first = &tokens[1].loc;
    assert_eq!((first.line, first.col, first.len), (2, 1, 1));
    let number = &tokens[9].loc;
    assert_eq!((number.line, number.col, number.len), (2, 9, 4));
    assert_eq!(number.span.iter().collect::<String>(), "1234");
}

#[test]
fn missing_table_gives_default_token() {
    let mut lexer = Lexer::new("+ x .".into());
    let tokens = lexer.lex().unwrap().tokens;
    assert_eq!(tokens.len(), 3);
    assert_eq!(tokens[0].kind, TokenKind::Table(256));
    assert_eq!(tokens[0].loc.len, 0);
    assert_eq!(tokens[1].kind, TokenKind::Inc);
    assert_eq!(tokens[2].kind, TokenKind::Print);
}

#[test]
fn empty_text_gives_only_the_table() {
    let mut lexer = Lexer::new(String::new());
    let tokens = lexer.lex().unwrap().tokens;
    assert_eq!(tokens.len(), 1);
    assert_eq!(tokens[0].kind, TokenKind::Table(256));
}

#[test]
fn lone_bracket_gives_default_size() {
    let mut lexer = Lexer::new("[".into());
    let tokens = lexer.lex().unwrap().tokens;
    assert_eq!(tokens.len(), 1);
    assert_eq!(tokens[0].kind, TokenKind::Table(256));
}

#[test]
fn oversized_table_gives_default_size() {
    let mut lexer = Lexer::new("[99999999999999999999999]+".into());
    let tokens = lexer.lex().unwrap().tokens;
    assert_eq!(tokens[0].kind, TokenKind::Table(256));
}

#[test]
fn oversized_number_reads_as_zero() {
    let mut lexer = Lexer::new("[4](99999999999999999999999)(18446744073709551615)".into());
    let tokens = lexer.lex().unwrap().tokens;
    assert_eq!(tokens[2].kind, TokenKind::Number(0));
    assert_eq!(tokens[5].kind, TokenKind::Number(18446744073709551615));
}

#[test]
fn non_digit_after_bracket_is_unexpected() {
    let mut lexer = Lexer::new("[a]".into());
    match lexer.lex() {
        Err(LexError::UnexpectedToken(_, loc)) => {
            assert_eq!(loc.span.iter().collect::<String>(), "a");
            assert_eq!((loc.line, loc.col), (1, 3));
        },
        _ => panic!("expected an unexpected-token error"),
    }
}

#[test]
fn table_without_closing_bracket_is_an_error() {
    let mut lexer = Lexer::new("[12x]".into());
    match lexer.lex() {
        Err(LexError::ExpectedToken(kind, loc)) => {
            assert_eq!(kind, TokenKind::EndDefine);
            assert_eq!(loc.span.iter().collect::<String>(), "x");
        },
        _ => panic!("expected an expected-token error"),
    }
    let mut lexer = Lexer::new("[12".into());
    match lexer.lex() {
        Err(LexError::ExpectedToken(kind, loc)) => {
            assert_eq!(kind, TokenKind::EndDefine);
            assert_eq!(loc.len, 0);
        },
        _ => panic!("expected an expected-token error"),
    }
}

#[test]
fn operators_display_as_their_text() {
    let text = " +-*/><.{}[]()?@$&=%:^_;~";
    let mut lexer = Lexer::new(text.into());
    let tokens = lexer.lex().unwrap().tokens;
    assert_eq!(tokens.len(), 25);
    let mut rendered = String::new();
    for t in &tokens[1..] {
        let shown = t.kind.display();
        assert_eq!(shown, t.loc.span.iter().collect::<String>());
        rendered.push_str(&shown);
    }
    assert_eq!(rendered, text.trim_start());
}

#[test]
fn numbers_display_in_decimal() {
    assert_eq!(TokenKind::Number(1234).display(), "1234");
    assert_eq!(TokenKind::Number(0).display(), "0");
    assert_eq!(TokenKind::Table(256).display(), "256");
    assert_eq!(TokenKind::Inc.display(), "+");
}

#[test]
fn lex_errors_describe_place_and_text() {
    let e = Lexer::new("[a]".into()).lex().err().unwrap();
    assert_eq!(e.describe(), "Unexpected token 'a' at line 1 col 3.");
    let e = Lexer::new("[12x]".into()).lex().err().unwrap();
    assert_eq!(e.describe(), "Expected token ']' at line 1 col 5, got 'x'.");
}
