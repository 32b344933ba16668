use snekplusplus::ast::{Expr, Program, Stmt, TypeName};
use snekplusplus::checker::{
    arithmetic_result_ty, check_program, check_program_traced, check_stmt, is_numeric_ty, VarTypes,
};
use snekplusplus::error::{ErrorCode, SemanticError};
use snekplusplus::lexer::Lexer;
use snekplusplus::parser::Parser;

fn program(src: &str) -> Program {
    let tokens = Lexer::new(src).tokenize().expect("source should lex");
    match Parser::new(tokens).parse_program() {
        Ok(p) => p,
        Err(_) => panic!("source should parse"),
    }
}

fn check(src: &str) -> Result<(), SemanticError> {
    check_program(&program(src))
}

fn check_err(src: &str) -> SemanticError {
    check(src).expect_err("the program should be rejected")
}

#[test]
fn accepts_well_typed_program() {
    let src = "public funct int add(int a, int b) { return a + b; }
        public funct int Main() {
            var s = add(1, 2);
            if (s > 2) { print(s, \"big\"); } else { print(s); }
            return s;
        }";
    assert!(check(src).is_ok());
}

#[test]
fn duplicate_function() {
    let e = check_err("public funct void f() { } public funct void f() { }");
    assert_eq!(e.code, ErrorCode::DuplicateFunction);
    assert_eq!(e.message, "duplicate function 'f'");
}

#[test]
fn main_must_return_int() {
    let e = check_err("public funct void Main() { }");
    assert_eq!(e.code, ErrorCode::MainMustReturnInt);
    assert_eq!(e.message, "Main must return int");
}

#[test]
fn duplicate_parameter() {
    let e = check_err("public funct void f(int a, bool a) { }");
    assert_eq!(e.code, ErrorCode::DuplicateParameter);
    assert_eq!(e.message, "duplicate parameter 'a'");
}

#[test]
fn variable_declared_twice() {
    let e = check_err("public funct void f(int a) { var a = 1; }");
    assert_eq!(e.code, ErrorCode::DuplicateParameter);
    assert_eq!(e.message, "variable 'a' already declared");
}

#[test]
fn initialization_type_mismatch() {
    let e = check_err("public funct void f() { int x = true; }");
    assert_eq!(e.code, ErrorCode::AssignmentTypeMismatch);
    assert_eq!(e.message, "invalid initialization of 'x' (expected Int, found Bool)");
}

#[test]
fn assignment_type_mismatch() {
    let e = check_err("public funct void f(string s) { s = 1.5; }");
    assert_eq!(e.code, ErrorCode::AssignmentTypeMismatch);
    assert_eq!(e.message, "type mismatch in assignment to 's' (String = Float)");
}

#[test]
fn undeclared_variable() {
    let e = check_err("public funct void f() { y = 1; }");
    assert_eq!(e.code, ErrorCode::UndeclaredVariable);
    assert_eq!(e.message, "use of undeclared variable 'y'");
    let e2 = check_err("public funct void f() { print(z); }");
    assert_eq!(e2.message, "use of undeclared variable 'z'");
}

#[test]
fn return_checks() {
    let e = check_err("public funct void f() { return 1; }");
    assert_eq!(e.code, ErrorCode::ReturnTypeMismatch);
    assert_eq!(e.message, "returning a value from void function");
    let e2 = check_err("public funct int f() { return; }");
    assert_eq!(e2.code, ErrorCode::NonVoidMustReturn);
    assert_eq!(e2.message, "non-void function must return a value");
    let e3 = check_err("public funct int f() { return 'c'; }");
    assert_eq!(e3.code, ErrorCode::ReturnTypeMismatch);
    assert_eq!(e3.message, "return type mismatch (expected Int, found Char)");
}

#[test]
fn missing_return_on_some_path() {
    let e = check_err("public funct int f(bool b) { if (b) { return 1; } }");
    assert_eq!(e.code, ErrorCode::NonVoidMustReturn);
    assert_eq!(e.message, "non-void function must return a value on all paths");
    assert!(check("public funct int f(bool b) { if (b) { return 1; } else { return 2; } }").is_ok());
}

#[test]
fn loops_do_not_guarantee_return() {
    let e = check_err("public funct int f() { while (true) { return 1; } }");
    assert_eq!(e.code, ErrorCode::NonVoidMustReturn);
}

#[test]
fn switch_with_default_guarantees_return() {
    assert!(check("public funct int f(int n) { switch (n) { case 1: return 1; default: return 2; } }").is_ok());
    let e = check_err("public funct int f(int n) { switch (n) { case 1: return 1; } }");
    assert_eq!(e.code, ErrorCode::NonVoidMustReturn);
}

#[test]
fn conditions_must_be_bool() {
    let cases = [
        ("public funct void f() { if (1) { } }", "if condition must be bool"),
        ("public funct void f() { while (1) { } }", "while condition must be bool"),
        ("public funct void f() { do { } while (1); }", "do-while condition must be bool"),
        ("public funct void f() { for (int i = 0; i; i = i + 1) { } }", "for-loop condition must be bool"),
        ("public funct int f() { return 1 ? 2 : 3; }", "ternary condition must be bool"),
    ];
    for (src, msg) in cases {
        let e = check_err(src);
        assert_eq!(e.code, ErrorCode::ConditionMustBeBool);
        assert_eq!(e.message, msg);
    }
}

#[test]
fn switch_type_checks() {
    let e = check_err("public funct void f() { switch (true) { default: break; } }");
    assert_eq!(e.code, ErrorCode::SwitchTypeMismatch);
    assert_eq!(e.message, "switch expression must be int or char");
    let e2 = check_err("public funct void f() { switch (1) { case 'a': break; } }");
    assert_eq!(e2.code, ErrorCode::SwitchTypeMismatch);
    assert_eq!(e2.message, "switch case value type mismatch");
}

#[test]
fn calls_are_checked() {
    let e = check_err("public funct void f() { g(); }");
    assert_eq!(e.code, ErrorCode::UndefinedFunction);
    assert_eq!(e.message, "undefined function 'g'");
    let e2 = check_err("public funct void g(int a) { } public funct void f() { g(); }");
    assert_eq!(e2.code, ErrorCode::FunctionArgCountMismatch);
    assert_eq!(e2.message, "function 'g' expects 1 arguments, got 0");
    let e3 = check_err("public funct void g(int a) { } public funct void f() { g(true); }");
    assert_eq!(e3.code, ErrorCode::FunctionArgTypeMismatch);
    assert_eq!(e3.message, "function 'g' argument type mismatch (expected Int, found Bool)");
}

#[test]
fn ternary_branches_must_agree() {
    let e = check_err("public funct int f() { return true ? 1 : 'c'; }");
    assert_eq!(e.code, ErrorCode::TernaryTypeMismatch);
    assert_eq!(e.message, "ternary branches must have the same type");
}

#[test]
fn binary_operation_errors() {
    let cases = [
        ("public funct void f() { var x = true + 1; }", "invalid types for '+'"),
        ("public funct void f() { var x = \"a\" - \"b\"; }", "invalid numeric types for arithmetic"),
        ("public funct void f() { var x = 1.5 % 2; }", "% operator requires int operands"),
        ("public funct void f() { var x = true < 1; }", "invalid operands for comparison"),
        ("public funct void f() { var x = 1 == true; }", "type mismatch for equality operator"),
        ("public funct void f() { var x = 1 && true; }", "logical operators require bool operands"),
    ];
    for (src, msg) in cases {
        let e = check_err(src);
        assert_eq!(e.code, ErrorCode::InvalidBinaryOperation);
        assert_eq!(e.message, msg);
    }
}

#[test]
fn unary_operation_errors() {
    let cases = [
        ("public funct void f() { var x = -true; }", "unary '-' requires numeric type"),
        ("public funct void f() { var x = !1; }", "unary '!' requires bool"),
        ("public funct void f() { var x = \"s\"++; }", "increment/decrement requires numeric or char type"),
    ];
    for (src, msg) in cases {
        let e = check_err(src);
        assert_eq!(e.code, ErrorCode::InvalidUnaryOperation);
        assert_eq!(e.message, msg);
    }
}

#[test]
fn mixed_arithmetic_widens() {
    assert!(check("public funct double f() { return 1 + 2.5 * 1; }").is_err());
    assert!(check("public funct float f() { return 1 + 2.5; }").is_ok());
    assert!(check("public funct string f() { return \"a\" + \"b\"; }").is_ok());
    assert!(check("public funct char f(char c) { return c++; }").is_ok());
}

#[test]
fn declarations_in_branches_stay_local() {
    let e = check_err("public funct void f() { if (true) { var x = 1; } x = 2; }");
    assert_eq!(e.code, ErrorCode::UndeclaredVariable);
    assert!(check("public funct void f() { for (int i = 0; i < 3; i = i + 1) { print(i); } }").is_ok());
}

#[test]
fn numeric_types() {
    assert!(is_numeric_ty(TypeName::Int));
    assert!(is_numeric_ty(TypeName::Float));
    assert!(is_numeric_ty(TypeName::Double));
    assert!(!is_numeric_ty(TypeName::Char));
    assert!(!is_numeric_ty(TypeName::String));
    assert!(!is_numeric_ty(TypeName::Bool));
    assert!(!is_numeric_ty(TypeName::Void));
}

#[test]
fn arithmetic_result_is_widest_and_symmetric() {
    let all = [TypeName::Int, TypeName::Float, TypeName::Double];
    for a in all {
        for b in all {
            assert_eq!(arithmetic_result_ty(a, b), arithmetic_result_ty(b, a));
        }
    }
    assert_eq!(arithmetic_result_ty(TypeName::Int, TypeName::Int), TypeName::Int);
    assert_eq!(arithmetic_result_ty(TypeName::Int, TypeName::Float), TypeName::Float);
    assert_eq!(arithmetic_result_ty(TypeName::Float, TypeName::Double), TypeName::Double);
}

#[test]
fn checked_program_has_distinct_names_and_returning_bodies() {
    let src = "public funct int a() { return 1; } public funct void b(int x, int y) { } public funct int Main() { return a(); }";
    let p = program(src);
    assert!(check_program(&p).is_ok());
    for (i, f) in p.functions.iter().enumerate() {
        for g in &p.functions[..i] {
            assert_ne!(f.name, g.name);
        }
    }
}

#[test]
fn trace_lists_functions_whose_statements_pass() {
    let p = program("public funct void f() { } public funct int g(bool b) { if (b) { return 1; } } public funct void h() { }");
    let (r, trace) = check_program_traced(&p);
    assert_eq!(r.unwrap_err().code, ErrorCode::NonVoidMustReturn);
    assert_eq!(trace, vec![(0, false), (1, false)]);
    let p2 = program("public funct int a() { return 1; } public funct void b() { x = 1; }");
    let (r2, trace2) = check_program_traced(&p2);
    assert_eq!(r2.unwrap_err().code, ErrorCode::UndeclaredVariable);
    assert_eq!(trace2, vec![(0, true)]);
    let p3 = program("public funct void a() { } public funct void a() { }");
    let (r3, trace3) = check_program_traced(&p3);
    assert!(r3.is_err());
    assert!(trace3.is_empty());
    let (r4, trace4) = check_program_traced(&program("public funct int Main() { return 0; }"));
    assert!(r4.is_ok());
    assert_eq!(trace4, vec![(0, true)]);
}

#[test]
fn only_declarations_add_variables() {
    for body in [
        "while (true) { int y = 2; } y = 3;",
        "do { int y = 2; } while (false); y = 3;",
        "for (int y = 0; y < 3; y = y + 1) { } y = 3;",
        "switch (1) { case 1: int y = 2; } y = 3;",
    ] {
        let e = check_err(&format!("public funct void f() {{ {body} }}"));
        assert_eq!(e.code, ErrorCode::UndeclaredVariable, "{body}");
        assert_eq!(e.message, "use of undeclared variable 'y'");
    }
    assert!(check("public funct void f() { var y = 'c'; y = 'd'; }").is_ok());
    let e = check_err("public funct void f() { var y = 'c'; y = 1; }");
    assert_eq!(e.message, "type mismatch in assignment to 'y' (Char = Int)");
}

fn decl(name: &str, ty: Option<TypeName>, init: Expr) -> Stmt {
    Stmt::VarDecl { explicit_type: ty, name: name.to_string(), init }
}

#[test]
fn check_stmt_adds_only_a_passing_declaration() {
    let x = "x".to_string();
    let y = "y".to_string();
    let mut env = VarTypes::new();
    let e = check_stmt(&decl("x", Some(TypeName::Int), Expr::BoolLiteral(true)), TypeName::Int, &vec![], &mut env)
        .expect_err("a bool does not initialise an int");
    assert_eq!(e.code, ErrorCode::AssignmentTypeMismatch);
    assert_eq!(e.message, "invalid initialization of 'x' (expected Int, found Bool)");
    assert_eq!(env.get(&x), None);

    assert!(check_stmt(&decl("x", Some(TypeName::Int), Expr::Number(1)), TypeName::Int, &vec![], &mut env).is_ok());
    assert_eq!(env.get(&x), Some(TypeName::Int));

    let e = check_stmt(&decl("x", Some(TypeName::Int), Expr::Number(1)), TypeName::Int, &vec![], &mut env)
        .expect_err("x is declared already");
    assert_eq!(e.code, ErrorCode::DuplicateParameter);
    assert_eq!(e.message, "variable 'x' already declared");
    assert_eq!(env.get(&x), Some(TypeName::Int));

    assert!(check_stmt(&decl("y", None, Expr::CharLiteral('c')), TypeName::Int, &vec![], &mut env).is_ok());
    assert_eq!(env.get(&y), Some(TypeName::Char));

    let z = "z".to_string();
    let lp = Stmt::While { cond: Expr::BoolLiteral(true), body: vec![decl("z", None, Expr::Number(2))] };
    assert!(check_stmt(&lp, TypeName::Int, &vec![], &mut env).is_ok());
    assert_eq!(env.get(&z), None);
    assert_eq!(env.get(&x), Some(TypeName::Int));
}
