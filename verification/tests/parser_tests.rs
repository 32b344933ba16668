use snekplusplus::ast::{BinOp, Expr, Program, Stmt, TypeName, UnaryOp, Visibility};
use snekplusplus::error::CompileError;
use snekplusplus::lexer::Lexer;
use snekplusplus::parser::{ParseFailure, Parser};

fn parse(src: &str) -> Result<Program, ParseFailure> {
    let tokens = Lexer::new(src).tokenize().expect("source should lex");
    Parser::new(tokens).parse_program()
}

fn parse_ok(src: &str) -> Program {
    match parse(src) {
        Ok(p) => p,
        Err(ParseFailure::Syntax(e)) => panic!("syntax error: {} at {}:{}", e.message, e.pos.line, e.pos.column),
        Err(ParseFailure::NoProgress) => panic!("no progress"),
    }
}

fn syntax_error(src: &str) -> CompileError {
    match parse(src) {
        Err(ParseFailure::Syntax(e)) => e,
        _ => panic!("expected a syntax error"),
    }
}

#[test]
fn parses_main_function() {
    let p = parse_ok("public funct int Main() { return 0; }");
    assert_eq!(p.functions.len(), 1);
    let f = &p.functions[0];
    assert_eq!(f.name, "Main");
    assert_eq!(f.visibility, Visibility::Public);
    assert_eq!(f.return_type, TypeName::Int);
    assert!(f.params.is_empty());
    assert_eq!(f.body.len(), 1);
    assert!(matches!(&f.body[0], Stmt::Return(Some(Expr::Number(0)))));
}

#[test]
fn empty_program() {
    let p = parse_ok("");
    assert!(p.functions.is_empty());
}

#[test]
fn parameters_and_visibility() {
    let p = parse_ok("private funct void f(int a, string b) { } protected funct bool g() { return true; }");
    assert_eq!(p.functions.len(), 2);
    let f = &p.functions[0];
    assert_eq!(f.visibility, Visibility::Private);
    assert_eq!(f.return_type, TypeName::Void);
    assert_eq!(f.params.len(), 2);
    assert_eq!(f.params[0].name, "a");
    assert_eq!(f.params[0].ty, TypeName::Int);
    assert_eq!(f.params[1].name, "b");
    assert_eq!(f.params[1].ty, TypeName::String);
    assert_eq!(p.functions[1].visibility, Visibility::Protected);
}

#[test]
fn precedence_of_binary_operators() {
    let p = parse_ok("public funct int f() { return 1 + 2 * 3 - 4; }");
    match &p.functions[0].body[0] {
        Stmt::Return(Some(Expr::Binary { op: BinOp::Sub, left, right })) => {
            assert!(matches!(**right, Expr::Number(4)));
            match &**left {
                Expr::Binary { op: BinOp::Add, left: l2, right: r2 } => {
                    assert!(matches!(**l2, Expr::Number(1)));
                    assert!(matches!(**r2, Expr::Binary { op: BinOp::Mul, .. }));
                }
                other => panic!("unexpected {:?}", other),
            }
        }
        other => panic!("unexpected {:?}", other),
    }
}

#[test]
fn logical_comparison_and_ternary() {
    let p = parse_ok("public funct int f(int a) { return a < 2 && a != 0 || false ? -a : a++; }");
    match &p.functions[0].body[0] {
        Stmt::Return(Some(Expr::Ternary { cond, then_expr, else_expr })) => {
            assert!(matches!(**cond, Expr::Binary { op: BinOp::Or, .. }));
            assert!(matches!(**then_expr, Expr::Unary { op: UnaryOp::Neg, .. }));
            assert!(matches!(**else_expr, Expr::Unary { op: UnaryOp::PostInc, .. }));
        }
        other => panic!("unexpected {:?}", other),
    }
}

#[test]
fn calls_parens_and_literals() {
    let p = parse_ok("public funct void f() { print(\"hi\", 'c', 1.5, (x), g()); }");
    match &p.functions[0].body[0] {
        Stmt::ExprStmt(Expr::Call { name, args }) => {
            assert_eq!(name, "print");
            assert_eq!(args.len(), 5);
            assert!(matches!(&args[0], Expr::StringLiteral(s) if s == "hi"));
            assert!(matches!(&args[1], Expr::CharLiteral('c')));
            assert!(matches!(&args[2], Expr::Float(s) if s == "1.5"));
            assert!(matches!(&args[3], Expr::Paren(_)));
            assert!(matches!(&args[4], Expr::Call { args, .. } if args.is_empty()));
        }
        other => panic!("unexpected {:?}", other),
    }
}

#[test]
fn control_flow_statements() {
    let src = "public funct void f(int n) {
        if (n > 0) { n = 1; } else if (n < 0) { n = 2; } else { n = 3; }
        while (n < 10) { n = n + 1; break; }
        do { continue; } while (false);
        for (int i = 0; i < 3; i = i + 1) { print(i); }
        switch (n) { case 1: print(1); default: print(2); }
        return;
    }";
    let p = parse_ok(src);
    let body = &p.functions[0].body;
    assert_eq!(body.len(), 6);
    match &body[0] {
        Stmt::If { then_body, else_body, .. } => {
            assert_eq!(then_body.len(), 1);
            assert_eq!(else_body.len(), 1);
            assert!(matches!(&else_body[0], Stmt::If { else_body: e2, .. } if e2.len() == 1));
        }
        other => panic!("unexpected {:?}", other),
    }
    assert!(matches!(&body[1], Stmt::While { body, .. } if body.len() == 2));
    assert!(matches!(&body[2], Stmt::DoWhile { body, cond: Expr::BoolLiteral(false) } if body.len() == 1));
    match &body[3] {
        Stmt::For { init, step, body, .. } => {
            assert!(matches!(**init, Stmt::VarDecl { explicit_type: Some(TypeName::Int), .. }));
            assert!(matches!(**step, Stmt::Assign { .. }));
            assert_eq!(body.len(), 1);
        }
        other => panic!("unexpected {:?}", other),
    }
    match &body[4] {
        Stmt::Switch { cases, .. } => {
            assert_eq!(cases.len(), 2);
            assert!(cases[0].0.is_some());
            assert!(cases[1].0.is_none());
        }
        other => panic!("unexpected {:?}", other),
    }
    assert!(matches!(&body[5], Stmt::Return(None)));
}

#[test]
fn var_declaration_without_type() {
    let p = parse_ok("public funct void f() { var x = 1; }");
    assert!(matches!(&p.functions[0].body[0], Stmt::VarDecl { explicit_type: None, name, .. } if name == "x"));
}

#[test]
fn statements_of_the_same_kind_in_a_row() {
    let p = parse_ok("public funct int f() { int x = 1; int y = 2; x = 3; x = 4; return x; }");
    let body = &p.functions[0].body;
    assert_eq!(body.len(), 5);
    assert!(matches!(&body[0], Stmt::VarDecl { explicit_type: Some(TypeName::Int), name, init: Expr::Number(1) } if name == "x"));
    assert!(matches!(&body[1], Stmt::VarDecl { explicit_type: Some(TypeName::Int), name, init: Expr::Number(2) } if name == "y"));
    assert!(matches!(&body[2], Stmt::Assign { name, expr: Expr::Number(3) } if name == "x"));
    assert!(matches!(&body[3], Stmt::Assign { expr: Expr::Number(4), .. }));
    assert!(matches!(&body[4], Stmt::Return(Some(Expr::Var(v))) if v == "x"));
}

#[test]
fn missing_semicolon_reports_expected_kind() {
    let e = syntax_error("public funct void f() { x = 1 }");
    assert_eq!(e.message, "expected Semicolon, got RBrace");
    assert_eq!((e.pos.line, e.pos.column), (1, 31));
}

#[test]
fn expected_kind_shows_identifier_text() {
    let e = syntax_error("public funct void f() { return 1 x; }");
    assert_eq!(e.message, "expected Semicolon, got Ident(\"x\")");
}

#[test]
fn missing_visibility() {
    let e = syntax_error("funct void f() { }");
    assert_eq!(e.message, "expected visibility (public/private/protected)");
    assert_eq!((e.pos.line, e.pos.column), (1, 1));
}

#[test]
fn missing_type() {
    let e = syntax_error("public funct f() { }");
    assert_eq!(e.message, "expected type");
}

#[test]
fn missing_function_name() {
    let e = syntax_error("public funct int () { }");
    assert_eq!(e.message, "expected function name");
}

#[test]
fn missing_parameter_name() {
    let e = syntax_error("public funct int f(int) { }");
    assert_eq!(e.message, "expected parameter name");
}

#[test]
fn unexpected_token_in_statement() {
    let e = syntax_error("public funct void f() { 5; }");
    assert_eq!(e.message, "unexpected token 'Number(5)' in statement");
}

#[test]
fn unexpected_string_token_in_statement() {
    let e = syntax_error("public funct void f() { \"a\\\"b\"; }");
    assert_eq!(e.message, "unexpected token 'StringLit(\"a\\\"b\")' in statement");
}

#[test]
fn unexpected_char_token_in_statement() {
    let e = syntax_error("public funct void f() { '\\n'; }");
    assert_eq!(e.message, "unexpected token 'CharLit('\\n')' in statement");
}

#[test]
fn expected_expression() {
    let e = syntax_error("public funct int f() { x = ); }");
    assert_eq!(e.message, "expected expression");
    assert_eq!((e.pos.line, e.pos.column), (1, 28));
}

#[test]
fn invalid_for_init() {
    let e = syntax_error("public funct void f() { for (1; true; x) { } }");
    assert_eq!(e.message, "invalid for-loop init");
}

#[test]
fn switch_needs_case_or_default() {
    let e = syntax_error("public funct void f() { switch (x) { print(1); } }");
    assert_eq!(e.message, "expected 'case' or 'default' in switch");
}

#[test]
fn lexed_tokens_can_be_parsed() {
    for src in ["", "public funct void f() { }", "// only a comment\n"] {
        let tokens = Lexer::new(src).tokenize().expect("source should lex");
        assert!(matches!(tokens.last().map(|t| &t.kind), Some(snekplusplus::ast::TokenKind::EOF)));
        assert!(Parser::new(tokens).parse_program().is_ok());
    }
}
