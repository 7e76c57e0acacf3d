use tablang::ast::{ParameterKind, StatementKind};
use tablang::lexer::{Lexer, TokenKind};
use tablang::parser::{ParseError, Parser};
use tablang::program::Program;

fn parse(text: &str) -> Result<Program, ParseError> {
    let mut lexer = Lexer::new(text.into());
    let tokens = lexer.lex().unwrap().tokens;
    Parser::new(tokens).parse_program()
}

#[test]
fn parser_test_it_works() {
    let mut lexer = Lexer::new("[32]\n:(0)++>?(0)-<;;:(1)&_._;++^(0)^(1)>++^(1)****^(1)".into());
    let lex_result = lexer.lex();

    assert!(lex_result.is_ok());

    let mut parser = Parser::new(lex_result.unwrap().tokens);

    let prog_result = parser.parse_program();

    println!("{:?}", prog_result.ok().unwrap());
}

#[test]
fn parses_functions_and_nesting() {
    let prog = parse("[32]\n:(0)++>?(0)-<;;:(1)&_._;++^(0)^(1)>++^(1)****^(1)").unwrap();
    assert_eq!(prog.table.size, 32);
    assert_eq!(prog.table.array.len(), 32);
    assert_eq!(prog.statements.len(), 15);
    assert_eq!(prog.functions.len(), 2);
    match &prog.functions[&0].kind {
        StatementKind::DefineFn(0, body) => {
            assert_eq!(body.len(), 4);
            match &body[3].kind {
                StatementKind::If(ParameterKind::Numeric(0), inner) => assert_eq!(inner.len(), 2),
                _ => panic!("expected an if"),
            }
        },
        _ => panic!("expected a definition"),
    }
    assert!(matches!(prog.statements[4].kind, StatementKind::CallFn(0)));
}

#[test]
fn later_definition_wins() {
    let prog = parse(":(3)+;:(3)-;").unwrap();
    assert_eq!(prog.functions.len(), 1);
    match &prog.functions[&3].kind {
        StatementKind::DefineFn(3, body) => assert!(matches!(body[0].kind, StatementKind::Dec)),
        _ => panic!("expected a definition"),
    }
}

#[test]
fn loop_terminator_is_optional() {
    let prog = parse("[2]{+}{-}($)").unwrap();
    assert!(matches!(prog.statements[0].kind, StatementKind::Loop(_, None)));
    assert!(matches!(prog.statements[1].kind, StatementKind::Loop(_, Some(ParameterKind::Saved))));
}

#[test]
fn missing_table_parses_with_default_size() {
    let prog = parse("+.").unwrap();
    assert_eq!(prog.table.size, 256);
    assert_eq!(prog.table.curr, 0);
}

#[test]
fn bad_parameter_is_reported() {
    assert!(matches!(parse("[4]=(+)"), Err(ParseError::ExpectedParameter(_))));
}

#[test]
fn function_id_must_be_a_number() {
    assert!(matches!(parse(":($)+;"), Err(ParseError::ExpectedNumber(_))));
}

#[test]
fn missing_paren_is_reported() {
    match parse("=(1+") {
        Err(ParseError::ExpectedToken(kind, tok)) => {
            assert_eq!(kind, TokenKind::RParen);
            assert_eq!(tok.kind, TokenKind::Inc);
        },
        _ => panic!("expected an expected-token error"),
    }
}

#[test]
fn unclosed_loop_is_unexpected_eof() {
    assert!(matches!(parse("[4]{+"), Err(ParseError::UnexpectedEof(1, 6))));
}

#[test]
fn stray_closer_is_unexpected() {
    assert!(matches!(parse("[4]}"), Err(ParseError::UnexpectedToken(_))));
}

#[test]
fn second_table_token_is_rejected() {
    let mut tokens = Lexer::new("[4]".into()).lex().unwrap().tokens;
    tokens.extend(Lexer::new("[8]".into()).lex().unwrap().tokens);
    assert!(matches!(Parser::new(tokens).parse_program(), Err(ParseError::UnexpectedTableToken(_))));
}

#[test]
fn parse_errors_describe_place_and_text() {
    let describe = |text: &str| parse(text).err().unwrap().describe();
    assert_eq!(describe("=(1+"), "Expected token of type ')' at line 1 col 5, got '+'.");
    assert_eq!(describe("[4]=(+)"), "Expected a number or '$' at line 1 col 7, got '+'.");
    assert_eq!(describe(":($)+;"), "Expected a number at line 1 col 4, got '$'.");
    assert_eq!(describe("[4]{+"), "Unexpected EOF at line 1 col 6.");
    assert_eq!(describe("[4]}"), "Unexpected token '}' at line 1 col 5.");
    let mut tokens = Lexer::new("[4]".into()).lex().unwrap().tokens;
    tokens.extend(Lexer::new("[8]".into()).lex().unwrap().tokens);
    let e = Parser::new(tokens).parse_program().err().unwrap();
    assert_eq!(e.describe(), "Unexpected table token '[8]' at line 1 col 1.");
    let e = Parser::new(Vec::new()).parse_stmt().err().unwrap();
    assert_eq!(e.describe(), "Expected a statement at line 1 col 1.");
}
