use snekplusplus::ast::{format_type, Expr, Program, Stmt, TokenKind, TypeName};
use snekplusplus::codegen::{cpp_type, emit_expr, emit_function, emit_stmt, generate_cpp};
use snekplusplus::lexer::Lexer;
use snekplusplus::parser::Parser;

fn program(src: &str) -> Program {
    let tokens = Lexer::new(src).tokenize().expect("source should lex");
    match Parser::new(tokens).parse_program() {
        Ok(p) => p,
        Err(_) => panic!("source should parse"),
    }
}

const HEADER: &str = "// Snek++ → C++\n#include <iostream>\n#include <string>\n\n";

#[test]
fn empty_program_is_the_header() {
    assert_eq!(generate_cpp(&program("")), HEADER);
}

#[test]
fn main_becomes_main() {
    let out = generate_cpp(&program("public funct int Main() { return 0; }"));
    assert_eq!(out, format!("{HEADER}int main() {{\n    return 0;\n}}\n\n"));
}

#[test]
fn functions_keep_their_order() {
    let out = generate_cpp(&program(
        "public funct void a() { } public funct void b() { } public funct void c() { }",
    ));
    assert_eq!(out, format!("{HEADER}void a() {{\n}}\n\nvoid b() {{\n}}\n\nvoid c() {{\n}}\n\n"));
}

#[test]
fn parameters_and_types() {
    let p = program("public funct double f(int a, string s, char c, bool b, float x) { return 1.5; }");
    assert_eq!(
        emit_function(&p.functions[0]),
        "double f(int a, std::string s, char c, bool b, float x) {\n    return 1.5;\n}\n"
    );
}

#[test]
fn print_becomes_cout() {
    let p = program("public funct void f() { print(1, \"a\\n\", 'q'); var z = 0; print(); }");
    assert_eq!(
        emit_function(&p.functions[0]),
        "void f() {\n    std::cout << 1 << \" \" << \"a\\n\" << \" \" << 'q' << std::endl;\n    auto z = 0;\n    std::cout << std::endl;\n}\n"
    );
}

#[test]
fn statements_are_indented() {
    let src = "public funct void f(int n) {
        if (n > 0) { n = 1; } else { var k = n--; }
        while (!false) { break; }
        do { continue; } while (n <= 2);
        for (int i = 0; i < 3; i = i + 1) { print(i); }
        switch (n) { case 1: print(1); default: return; }
    }";
    let expected = "void f(int n) {
    if (n > 0) {
        n = 1;
    }
    else {
        auto k = n--;
    }
    while (!false) {
        break;
    }
    do {
        continue;
    } while (n <= 2);
    for (int i = 0; i < 3; i = i + 1) {
        std::cout << i << std::endl;
    }
    switch (n) {
        case 1:
            std::cout << 1 << std::endl;
        default:
            return;
    }
}
";
    assert_eq!(emit_function(&program(src).functions[0]), expected);
}

#[test]
fn expressions() {
    let p = program("public funct int f(int a) { return (a * -2) + g(a, 3) % 4 - (a > 1 ? ++a : a--) && true || false; }");
    assert_eq!(
        emit_function(&p.functions[0]),
        "int f(int a) {\n    return (a * -2) + g(a, 3) % 4 - ((a > 1 ? ++a : a--)) && true || false;\n}\n"
    );
}

#[test]
fn literals_are_escaped() {
    let p = program("public funct void f() { string s = \"q\\\"\\\\\\t\"; char c = '\\''; var d = '\\\\'; int n = -5; }");
    let out = emit_function(&p.functions[0]);
    assert!(out.contains("std::string s = \"q\\\"\\\\\\t\";"));
    assert!(out.contains("char c = '\\'';"));
    assert!(out.contains("auto d = '\\\\';"));
    assert!(out.contains("int n = -5;"));
}

#[test]
fn lexer_reads_emitted_string_back() {
    let p = program("public funct void f() { string s = \"q\\\"x\\\\y\\tz\\n\"; }");
    let out = emit_function(&p.functions[0]);
    let start = out.find('"').unwrap();
    let end = out.rfind('"').unwrap();
    let literal = &out[start..=end];
    let toks = Lexer::new(literal).tokenize().expect("the literal should lex");
    assert_eq!(toks.len(), 2);
    assert_eq!(toks[0].kind, TokenKind::StringLit("q\"x\\y\tz\n".to_string()));
    assert_eq!((toks[0].line, toks[0].column), (1, 1));
    assert_eq!(toks[1].kind, TokenKind::EOF);
}

#[test]
fn cpp_types_are_source_types_but_string() {
    let p = program("public funct void f(int a, bool b, float c, double d, char e, string g) { }");
    let out = emit_function(&p.functions[0]);
    for (t, n) in [(TypeName::Int, "a"), (TypeName::Bool, "b"), (TypeName::Float, "c"), (TypeName::Double, "d"), (TypeName::Char, "e")] {
        assert!(out.contains(&format!("{} {}", format_type(t), n)));
    }
    assert!(out.contains("std::string g"));
}

#[test]
fn every_body_line_starts_with_its_indentation() {
    let p = program(
        "public funct void f(int n) { while (n > 0) { if (n == 1) { print(\"a\\nb\"); } n = n - 1; } switch (n) { case 0: n = 2; } }",
    );
    let text = emit_function(&p.functions[0]);
    let lines: Vec<&str> = text.lines().collect();
    assert!(text.ends_with("}\n"));
    for line in &lines[1..lines.len() - 1] {
        assert!(line.starts_with("    "), "{line:?}");
    }
    assert!(lines.iter().any(|l| l.starts_with("            std::cout")));
}

#[test]
fn emitted_string_expression_lexes_back_to_the_string() {
    for s in ["", "plain", "q\"x\\y\tz\n", "\r\\n", "é ↑"] {
        let mut out: Vec<char> = Vec::new();
        emit_expr(&mut out, &Expr::StringLiteral(s.to_string()));
        let text: String = out.iter().collect();
        let toks = Lexer::new(&text).tokenize().expect("the literal should lex");
        assert_eq!(toks.len(), 2);
        assert_eq!(toks[0].kind, TokenKind::StringLit(s.to_string()));
        assert_eq!((toks[0].line, toks[0].column), (1, 1));
        assert_eq!(toks[1].kind, TokenKind::EOF);
    }
}

#[test]
fn cpp_type_is_format_type_but_for_string() {
    for t in [TypeName::Int, TypeName::Bool, TypeName::Void, TypeName::Float, TypeName::Double, TypeName::Char] {
        assert_eq!(cpp_type(t), format_type(t));
    }
    assert_eq!(cpp_type(TypeName::String), "std::string");
}

#[test]
fn emit_stmt_appends_indented_lines() {
    let body = vec![
        Stmt::VarDecl { explicit_type: None, name: "k".to_string(), init: Expr::Number(1) },
        Stmt::Break,
    ];
    let stmt = Stmt::While { cond: Expr::BoolLiteral(true), body };
    let mut out: Vec<char> = "// before\n".chars().collect();
    emit_stmt(&mut out, &stmt, 2);
    let text: String = out.iter().collect();
    assert_eq!(
        text,
        "// before\n        while (true) {\n            auto k = 1;\n            break;\n        }\n"
    );
    let mut empty: Vec<char> = "x".chars().collect();
    emit_stmt(&mut empty, &Stmt::Empty, 3);
    assert_eq!(empty, vec!['x']);
}
