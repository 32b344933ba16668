use snekplusplus::color::apply_colors;
use snekplusplus::error::{CompileError, ErrorCode, SemanticError};
use snekplusplus::report::{error_codes, error_report, explain_error_help_text, explain_error_text, explain_program_text};
use snekplusplus::ast::Program;
use snekplusplus::lexer::Lexer;
use snekplusplus::parser::Parser;

fn program(src: &str) -> Program {
    let tokens = Lexer::new(src).tokenize().expect("source should lex");
    match Parser::new(tokens).parse_program() {
        Ok(p) => p,
        Err(_) => panic!("source should parse"),
    }
}

#[test]
fn apply_colors_replaces_placeholders() {
    assert_eq!(apply_colors("{RED}x{RESET}"), "\x1b[31mx\x1b[0m");
    assert_eq!(apply_colors("{BOLD}{DIM}{UNDERLINE}"), "\x1b[1m\x1b[2m\x1b[4m");
    assert_eq!(
        apply_colors("{GREEN}{YELLOW}{BLUE}{MAGENTA}{CYAN}{WHITE}"),
        "\x1b[32m\x1b[33m\x1b[34m\x1b[35m\x1b[36m\x1b[37m"
    );
    assert_eq!(apply_colors("{red} {PURPLE} plain"), "{red} {PURPLE} plain");
    assert_eq!(apply_colors(""), "");
}

#[test]
fn apply_colors_on_doubled_braces() {
    assert_eq!(apply_colors("{{RED}}"), "{\x1b[31m}");
}

#[test]
fn error_codes_round_trip() {
    for code in error_codes() {
        assert_eq!(ErrorCode::from_str(code.as_str()), Some(code));
        assert_eq!(ErrorCode::from_str(&code.as_str().to_lowercase()), Some(code));
    }
    assert_eq!(error_codes().len(), 16);
}

#[test]
fn error_code_names() {
    assert_eq!(ErrorCode::MainMustReturnInt.as_str(), "MAIN_MUST_RETURN_INT");
    assert_eq!(ErrorCode::UnsafeNotAllowed.as_str(), "UNSAFE_NOT_ALLOWED");
    assert_eq!(ErrorCode::from_str("duplicate_function"), Some(ErrorCode::DuplicateFunction));
    assert_eq!(ErrorCode::from_str("NOT_A_CODE"), None);
    assert_eq!(ErrorCode::from_str(""), None);
    assert_eq!(ErrorCode::from_str("LIST"), None);
}

#[test]
fn error_constructors() {
    let e = CompileError::new("boom".to_string(), 3, 4);
    assert_eq!(e.message, "boom");
    assert_eq!((e.pos.line, e.pos.column), (3, 4));
    assert!(e.code.is_none());
    let c = CompileError::with_code(ErrorCode::UndefinedFunction, "x".to_string(), 1, 1);
    assert_eq!(c.code, Some(ErrorCode::UndefinedFunction));
    let s = SemanticError::new(ErrorCode::TernaryTypeMismatch, "m".to_string());
    assert_eq!(s.code, ErrorCode::TernaryTypeMismatch);
    assert_eq!(s.message, "m");
}

#[test]
fn error_report_with_source_line() {
    let err = CompileError::new("expected Semicolon, got RBrace".to_string(), 2, 3);
    let lines = error_report(&err, "main.spp", "first\nab}\nthird\n");
    assert_eq!(lines.len(), 3);
    assert_eq!(lines[0], "main.spp:2:3: \x1b[31m\x1b[1merror:\x1b[0m expected Semicolon, got RBrace");
    assert_eq!(lines[1], "\x1b[2m  2 |\x1b[0m ab}");
    assert_eq!(lines[2], "\x1b[2m    |\x1b[0m   \x1b[31m↑\x1b[0m");
}

#[test]
fn error_report_with_code_and_no_line() {
    let err = CompileError::with_code(ErrorCode::MainMustReturnInt, "Main must return int".to_string(), 9, 1);
    let lines = error_report(&err, "a.spp", "one line\r\n");
    assert_eq!(lines, vec!["a.spp:9:1: \x1b[31m\x1b[1merror:\x1b[0m [MAIN_MUST_RETURN_INT] Main must return int".to_string()]);
}

#[test]
fn error_report_strips_carriage_return() {
    let err = CompileError::new("m".to_string(), 1, 1);
    let lines = error_report(&err, "f", "x = 1\r\ny");
    assert_eq!(lines[1], "\x1b[2m  1 |\x1b[0m x = 1");
    assert_eq!(lines[2], "\x1b[2m    |\x1b[0m \x1b[31m↑\x1b[0m");
}

#[test]
fn explain_one_code() {
    let lines = explain_error_text(ErrorCode::DuplicateFunction);
    assert_eq!(lines.len(), 4);
    assert_eq!(lines[0], "error code: DUPLICATE_FUNCTION");
    assert!(lines[1].starts_with("description:\n "));
    assert_eq!(lines[1], format!("description:\n {}", apply_colors(ErrorCode::DuplicateFunction.description())));
    assert_eq!(lines[2], format!("help: {}", ErrorCode::DuplicateFunction.help()));
    assert_eq!(lines[3], format!("example:\n{}", ErrorCode::DuplicateFunction.example()));
}

#[test]
fn explain_help_lists_every_code() {
    let lines = explain_error_help_text();
    assert_eq!(lines.len(), 18);
    assert_eq!(lines[0], "usage: snekplusplus explain <ERROR_CODE> | explain <file.spp> [function]");
    assert_eq!(lines[1], "Available error codes:");
    assert_eq!(lines[2], format!("- MAIN_MUST_RETURN_INT: {}", ErrorCode::MainMustReturnInt.description()));
    assert_eq!(lines[17], format!("- UNSAFE_NOT_ALLOWED: {}", ErrorCode::UnsafeNotAllowed.description()));
}

#[test]
fn explain_program_lists_functions() {
    let p = program("public funct int Main() { return 0; } private funct void greet(string who, int n) { }");
    assert_eq!(
        explain_program_text(&p, None),
        vec![
            "functions:".to_string(),
            "- Main (entry)() -> Int".to_string(),
            "- greet(string who, int n) -> Void".to_string(),
        ]
    );
}

#[test]
fn explain_program_describes_one_function() {
    let p = program("public funct int Main() { return 0; } private funct void greet(string who, int n) { print(who); return; }");
    assert_eq!(
        explain_program_text(&p, Some("greet")),
        vec![
            "function 'greet':".to_string(),
            "  return: Void".to_string(),
            "  visibility: Private".to_string(),
            "  params:".to_string(),
            "    - who: String".to_string(),
            "    - n: Int".to_string(),
            "  body statements: 2".to_string(),
        ]
    );
    assert_eq!(
        explain_program_text(&p, Some("Main")),
        vec![
            "function 'Main':".to_string(),
            "  return: Int".to_string(),
            "  visibility: Public".to_string(),
            "  params: (none)".to_string(),
            "  body statements: 1".to_string(),
        ]
    );
}

#[test]
fn explain_program_unknown_symbol() {
    let p = program("public funct int Main() { return 0; } public funct void g() { }");
    assert_eq!(
        explain_program_text(&p, Some("nope")),
        vec![
            "symbol 'nope' not found; available functions:".to_string(),
            "  - Main".to_string(),
            "  - g".to_string(),
        ]
    );
}

#[test]
fn explain_empty_program() {
    let p = program("");
    assert_eq!(explain_program_text(&p, None), vec!["no functions to explain".to_string()]);
    assert_eq!(explain_program_text(&p, Some("x")), vec!["no functions to explain".to_string()]);
}

#[test]
fn apply_colors_leaves_plain_text() {
    assert_eq!(apply_colors("no placeholders here: x < y | z"), "no placeholders here: x < y | z");
    assert_eq!(apply_colors("RED} RESET"), "RED} RESET");
}

#[test]
fn apply_colors_twice_is_once() {
    for s in ["{RED}x{RESET}", "{{RED}}", "{RE{RESET}D}", "{BOLD}{BOLD}{WHITE}", "plain", ""] {
        let once = apply_colors(s);
        assert_eq!(apply_colors(&once), once);
    }
}
