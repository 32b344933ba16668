use snekplusplus::ast::{Token, TokenKind};
use snekplusplus::lexer::Lexer;

fn lex(src: &str) -> Vec<Token> {
    Lexer::new(src).tokenize().expect("source should lex")
}

fn kinds(src: &str) -> Vec<TokenKind> {
    lex(src).into_iter().map(|t| t.kind).collect()
}

#[test]
fn lexes_declaration_with_positions() {
    let toks = lex("int x = 42;");
    let got: Vec<(TokenKind, usize, usize)> = toks.into_iter().map(|t| (t.kind, t.line, t.column)).collect();
    assert_eq!(
        got,
        vec![
            (TokenKind::Int, 1, 1),
            (TokenKind::Ident("x".to_string()), 1, 5),
            (TokenKind::Equal, 1, 7),
            (TokenKind::Number(42), 1, 9),
            (TokenKind::Semicolon, 1, 11),
            (TokenKind::EOF, 1, 12),
        ]
    );
}

#[test]
fn empty_source_gives_only_end_of_input() {
    let toks = lex("");
    assert_eq!(toks.len(), 1);
    assert_eq!(toks[0].kind, TokenKind::EOF);
    assert_eq!((toks[0].line, toks[0].column), (1, 1));
}

#[test]
fn comments_are_skipped_and_lines_counted() {
    let toks = lex("// note\n# other\n  +");
    assert_eq!(toks.len(), 2);
    assert_eq!(toks[0].kind, TokenKind::Plus);
    assert_eq!((toks[0].line, toks[0].column), (3, 3));
    assert_eq!(toks[1].kind, TokenKind::EOF);
}

#[test]
fn two_character_operators() {
    assert_eq!(
        kinds("++ -- == != <= >= && || = ! < > + -"),
        vec![
            TokenKind::PlusPlus,
            TokenKind::MinusMinus,
            TokenKind::EqualEqual,
            TokenKind::BangEqual,
            TokenKind::LessEqual,
            TokenKind::GreaterEqual,
            TokenKind::AndAnd,
            TokenKind::OrOr,
            TokenKind::Equal,
            TokenKind::Bang,
            TokenKind::Less,
            TokenKind::Greater,
            TokenKind::Plus,
            TokenKind::Minus,
            TokenKind::EOF,
        ]
    );
}

#[test]
fn punctuation() {
    assert_eq!(
        kinds("(){}[];,:?*/%"),
        vec![
            TokenKind::LParen,
            TokenKind::RParen,
            TokenKind::LBrace,
            TokenKind::RBrace,
            TokenKind::LBracket,
            TokenKind::RBracket,
            TokenKind::Semicolon,
            TokenKind::Comma,
            TokenKind::Colon,
            TokenKind::Question,
            TokenKind::Star,
            TokenKind::Slash,
            TokenKind::Percent,
            TokenKind::EOF,
        ]
    );
}

#[test]
fn keywords_and_identifiers() {
    assert_eq!(
        kinds("public private protected funct var int bool void string float double char if else while do for switch case default break continue return true false my_var1"),
        vec![
            TokenKind::Public,
            TokenKind::Private,
            TokenKind::Protected,
            TokenKind::Funct,
            TokenKind::Var,
            TokenKind::Int,
            TokenKind::Bool,
            TokenKind::Void,
            TokenKind::StringType,
            TokenKind::Float,
            TokenKind::Double,
            TokenKind::CharType,
            TokenKind::If,
            TokenKind::Else,
            TokenKind::While,
            TokenKind::DoWhile,
            TokenKind::For,
            TokenKind::Switch,
            TokenKind::Case,
            TokenKind::Default,
            TokenKind::Break,
            TokenKind::Continue,
            TokenKind::Return,
            TokenKind::True,
            TokenKind::False,
            TokenKind::Ident("my_var1".to_string()),
            TokenKind::EOF,
        ]
    );
}

#[test]
fn string_literal_escapes() {
    assert_eq!(
        kinds("\"a\\nb\\t\\\"q\\\\\\z\""),
        vec![TokenKind::StringLit("a\nb\t\"q\\z".to_string()), TokenKind::EOF]
    );
}

#[test]
fn char_literals() {
    assert_eq!(
        kinds("'a' '\\n' '\\'' '\"'"),
        vec![
            TokenKind::CharLit('a'),
            TokenKind::CharLit('\n'),
            TokenKind::CharLit('\''),
            TokenKind::CharLit('"'),
            TokenKind::EOF,
        ]
    );
}

#[test]
fn numbers_and_float_text() {
    assert_eq!(
        kinds("7 3.25 10."),
        vec![
            TokenKind::Number(7),
            TokenKind::FloatLit("3.25".to_string()),
            TokenKind::FloatLit("10.".to_string()),
            TokenKind::EOF,
        ]
    );
}

#[test]
fn largest_integer_literal() {
    assert_eq!(kinds("9223372036854775807"), vec![TokenKind::Number(i64::MAX), TokenKind::EOF]);
}

#[test]
fn integer_literal_out_of_range() {
    let e = Lexer::new("9223372036854775808").tokenize().unwrap_err();
    assert_eq!(e.message, "invalid integer literal");
    assert_eq!((e.pos.line, e.pos.column), (1, 20));
}

#[test]
fn lone_ampersand_is_an_error() {
    let e = Lexer::new("a & b").tokenize().unwrap_err();
    assert_eq!(e.message, "unexpected '&'");
    assert_eq!((e.pos.line, e.pos.column), (1, 3));
    assert!(e.code.is_none());
}

#[test]
fn lone_bar_is_an_error() {
    let e = Lexer::new("\n |").tokenize().unwrap_err();
    assert_eq!(e.message, "unexpected '|'");
    assert_eq!((e.pos.line, e.pos.column), (2, 2));
}

#[test]
fn unexpected_character() {
    let e = Lexer::new("x @").tokenize().unwrap_err();
    assert_eq!(e.message, "unexpected character '@'");
    assert_eq!((e.pos.line, e.pos.column), (1, 3));
}

#[test]
fn unterminated_string() {
    let e = Lexer::new("\"abc").tokenize().unwrap_err();
    assert_eq!(e.message, "unterminated string literal");
    assert_eq!((e.pos.line, e.pos.column), (1, 5));
}

#[test]
fn unterminated_char() {
    let e = Lexer::new("'ab'").tokenize().unwrap_err();
    assert_eq!(e.message, "unterminated char literal");
    let e2 = Lexer::new("'").tokenize().unwrap_err();
    assert_eq!(e2.message, "unterminated char literal");
}

#[test]
fn token_stream_ends_with_one_end_of_input() {
    let toks = lex("public funct int Main() { return 0; }");
    assert_eq!(toks.last().unwrap().kind, TokenKind::EOF);
    assert_eq!(toks.iter().filter(|t| t.kind == TokenKind::EOF).count(), 1);
}

#[test]
fn token_positions_start_at_one() {
    let toks = lex("\n\npublic funct void f()\n{\n}\n");
    assert!(toks.iter().all(|t| t.line >= 1 && t.column >= 1));
    assert_eq!((toks[0].line, toks[0].column), (3, 1));
    let last = toks.last().unwrap();
    assert_eq!((last.line, last.column), (6, 1));
}

#[test]
fn whitespace_changes_only_positions() {
    let a = lex("x = a + 1; // c\n\"s\"");
    let b = lex("\n\n   x\t=   a +\n1 ;   // c\n  \"s\"   ");
    let ka: Vec<TokenKind> = a.iter().map(|t| t.kind.clone()).collect();
    let kb: Vec<TokenKind> = b.iter().map(|t| t.kind.clone()).collect();
    assert_eq!(ka, kb);
    assert_ne!((a[0].line, a[0].column), (b[0].line, b[0].column));
}

#[test]
fn a_space_between_tokens_may_become_any_whitespace() {
    let a = lex("x = 1 + y");
    let b = lex("x\n=\t\t1 \n+\ny");
    let ka: Vec<TokenKind> = a.iter().map(|t| t.kind.clone()).collect();
    let kb: Vec<TokenKind> = b.iter().map(|t| t.kind.clone()).collect();
    assert_eq!(ka, kb);
    assert_eq!((b[2].line, b[2].column), (2, 4));
}
