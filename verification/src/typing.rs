use vstd::prelude::*;
use crate::ast::{BinOp, SpecExpr, SpecFunction, SpecParam, SpecStmt, TypeName, UnaryOp};
use crate::error::{ErrorCode, SpecSemanticError};
use crate::text::spec_nat_decimal;

verus! {

// The model of the semantic check. Variables are typed by an environment from names to
// types; calls are resolved against the functions of the program.

pub type TypeEnv = Map<Seq<char>, TypeName>;

pub type CResult<T> = Result<T, SpecSemanticError>;

pub open spec fn sem_err<T>(code: ErrorCode, message: Seq<char>) -> CResult<T> {
    Err(SpecSemanticError { code, message })
}

/// What std's derived `Debug` writes for a type: the variant's name.
pub open spec fn spec_type_debug(t: TypeName) -> Seq<char> {
    match t {
        TypeName::Int => "Int"@,
        TypeName::Bool => "Bool"@,
        TypeName::Void => "Void"@,
        TypeName::String => "String"@,
        TypeName::Float => "Float"@,
        TypeName::Double => "Double"@,
        TypeName::Char => "Char"@,
    }
}

pub open spec fn spec_is_numeric(t: TypeName) -> bool {
    t == TypeName::Int || t == TypeName::Float || t == TypeName::Double
}

/// The type of arithmetic on two numbers: the widest of the two.
pub open spec fn spec_arithmetic_result(l: TypeName, r: TypeName) -> TypeName {
    if l == TypeName::Double || r == TypeName::Double {
        TypeName::Double
    } else if l == TypeName::Float || r == TypeName::Float {
        TypeName::Float
    } else {
        TypeName::Int
    }
}

/// The first function named `name`, looking from index `i` on.
pub open spec fn find_function_from(fs: Seq<SpecFunction>, name: Seq<char>, i: int) -> Option<
    SpecFunction,
>
    decreases fs.len() - i,
{
    if i < 0 || i >= fs.len() {
        None
    } else if fs[i].name == name {
        Some(fs[i])
    } else {
        find_function_from(fs, name, i + 1)
    }
}

pub open spec fn find_function(fs: Seq<SpecFunction>, name: Seq<char>) -> Option<SpecFunction> {
    find_function_from(fs, name, 0)
}

pub open spec fn quoted(s: Seq<char>) -> Seq<char> {
    "'"@ + s + "'"@
}

pub open spec fn undeclared(name: Seq<char>) -> SpecSemanticError {
    SpecSemanticError {
        code: ErrorCode::UndeclaredVariable,
        message: "use of undeclared variable "@ + quoted(name),
    }
}

/// The type of a binary operation on operands of types `l` and `r`.
pub open spec fn binary_type(op: BinOp, l: TypeName, r: TypeName) -> CResult<TypeName> {
    match op {
        BinOp::Add => if l == TypeName::String && r == TypeName::String {
            Ok(TypeName::String)
        } else if spec_is_numeric(l) && spec_is_numeric(r) {
            Ok(spec_arithmetic_result(l, r))
        } else {
            sem_err(ErrorCode::InvalidBinaryOperation, "invalid types for '+'"@)
        },
        BinOp::Sub | BinOp::Mul | BinOp::Div => if spec_is_numeric(l) && spec_is_numeric(r) {
            Ok(spec_arithmetic_result(l, r))
        } else {
            sem_err(ErrorCode::InvalidBinaryOperation, "invalid numeric types for arithmetic"@)
        },
        BinOp::Mod => if l == TypeName::Int && r == TypeName::Int {
            Ok(TypeName::Int)
        } else {
            sem_err(ErrorCode::InvalidBinaryOperation, "% operator requires int operands"@)
        },
        BinOp::Less | BinOp::Greater | BinOp::LessEqual | BinOp::GreaterEqual => if (
        spec_is_numeric(l) && spec_is_numeric(r)) || l == r {
            Ok(TypeName::Bool)
        } else {
            sem_err(ErrorCode::InvalidBinaryOperation, "invalid operands for comparison"@)
        },
        BinOp::Equal | BinOp::NotEqual => if l == r {
            Ok(TypeName::Bool)
        } else {
            sem_err(ErrorCode::InvalidBinaryOperation, "type mismatch for equality operator"@)
        },
        BinOp::And | BinOp::Or => if l == TypeName::Bool && r == TypeName::Bool {
            Ok(TypeName::Bool)
        } else {
            sem_err(
                ErrorCode::InvalidBinaryOperation,
                "logical operators require bool operands"@,
            )
        },
    }
}

/// The type of a unary operation on an operand of type `t`.
pub open spec fn unary_type(op: UnaryOp, t: TypeName) -> CResult<TypeName> {
    match op {
        UnaryOp::Neg => if spec_is_numeric(t) {
            Ok(t)
        } else {
            sem_err(ErrorCode::InvalidUnaryOperation, "unary '-' requires numeric type"@)
        },
        UnaryOp::Not => if t == TypeName::Bool {
            Ok(TypeName::Bool)
        } else {
            sem_err(ErrorCode::InvalidUnaryOperation, "unary '!' requires bool"@)
        },
        _ => if spec_is_numeric(t) || t == TypeName::Char {
            Ok(t)
        } else {
            sem_err(
                ErrorCode::InvalidUnaryOperation,
                "increment/decrement requires numeric or char type"@,
            )
        },
    }
}

pub open spec fn arg_count_error(name: Seq<char>, expected: nat, got: nat) -> SpecSemanticError {
    SpecSemanticError {
        code: ErrorCode::FunctionArgCountMismatch,
        message: "function "@ + quoted(name) + " expects "@ + spec_nat_decimal(expected)
            + " arguments, got "@ + spec_nat_decimal(got),
    }
}

pub open spec fn arg_type_error(name: Seq<char>, expected: TypeName, found: TypeName) -> SpecSemanticError {
    SpecSemanticError {
        code: ErrorCode::FunctionArgTypeMismatch,
        message: "function "@ + quoted(name) + " argument type mismatch (expected "@
            + spec_type_debug(expected) + ", found "@ + spec_type_debug(found) + ")"@,
    }
}

/// The type of an expression, or the first error found in it.
pub open spec fn spec_check_expr(e: SpecExpr, fs: Seq<SpecFunction>, env: TypeEnv) -> CResult<TypeName>
    decreases e, 0int,
{
    match e {
        SpecExpr::Number(_) => Ok(TypeName::Int),
        SpecExpr::Float(_) => Ok(TypeName::Float),
        SpecExpr::BoolLiteral(_) => Ok(TypeName::Bool),
        SpecExpr::StringLiteral(_) => Ok(TypeName::String),
        SpecExpr::CharLiteral(_) => Ok(TypeName::Char),
        SpecExpr::Var(name) => if env.contains_key(name) {
            Ok(env[name])
        } else {
            Err(undeclared(name))
        },
        SpecExpr::Call { name, args } => if name == "print"@ {
            match check_all_from(args, 0, fs, env) {
                Err(err) => Err(err),
                Ok(_) => Ok(TypeName::Void),
            }
        } else {
            match find_function(fs, name) {
                None => sem_err(ErrorCode::UndefinedFunction, "undefined function "@ + quoted(name)),
                Some(f) => if f.params.len() != args.len() {
                    Err(arg_count_error(name, f.params.len(), args.len()))
                } else {
                    match check_args_from(name, args, f.params, 0, fs, env) {
                        Err(err) => Err(err),
                        Ok(_) => Ok(f.return_type),
                    }
                },
            }
        },
        SpecExpr::Binary { op, left, right } => match spec_check_expr(*left, fs, env) {
            Err(err) => Err(err),
            Ok(lt) => match spec_check_expr(*right, fs, env) {
                Err(err) => Err(err),
                Ok(rt) => binary_type(op, lt, rt),
            },
        },
        SpecExpr::Unary { op, expr } => match spec_check_expr(*expr, fs, env) {
            Err(err) => Err(err),
            Ok(t) => unary_type(op, t),
        },
        SpecExpr::Ternary { cond, then_expr, else_expr } => match spec_check_expr(*cond, fs, env) {
            Err(err) => Err(err),
            Ok(ct) => if ct != TypeName::Bool {
                sem_err(ErrorCode::ConditionMustBeBool, "ternary condition must be bool"@)
            } else {
                match spec_check_expr(*then_expr, fs, env) {
                    Err(err) => Err(err),
                    Ok(tt) => match spec_check_expr(*else_expr, fs, env) {
                        Err(err) => Err(err),
                        Ok(et) => if tt == et {
                            Ok(tt)
                        } else {
                            sem_err(
                                ErrorCode::TernaryTypeMismatch,
                                "ternary branches must have the same type"@,
                            )
                        },
                    },
                }
            },
        },
        SpecExpr::Paren(inner) => spec_check_expr(*inner, fs, env),
    }
}

/// Checks the expressions `args[i..]` in order, for the first error.
pub open spec fn check_all_from(args: Seq<SpecExpr>, i: int, fs: Seq<SpecFunction>, env: TypeEnv) -> CResult<()>
    decreases args, args.len() - i,
{
    if i < 0 || i >= args.len() {
        Ok(())
    } else {
        match spec_check_expr(args[i], fs, env) {
            Err(err) => Err(err),
            Ok(_) => check_all_from(args, i + 1, fs, env),
        }
    }
}

/// Checks the arguments `args[i..]` of a call of `name` against the parameters, in order.
pub open spec fn check_args_from(
    name: Seq<char>,
    args: Seq<SpecExpr>,
    params: Seq<SpecParam>,
    i: int,
    fs: Seq<SpecFunction>,
    env: TypeEnv,
) -> CResult<()>
    decreases args, args.len() - i,
{
    if i < 0 || i >= args.len() {
        Ok(())
    } else {
        match spec_check_expr(args[i], fs, env) {
            Err(err) => Err(err),
            Ok(t) => if t != params[i].ty {
                Err(arg_type_error(name, params[i].ty, t))
            } else {
                check_args_from(name, args, params, i + 1, fs, env)
            },
        }
    }
}

pub open spec fn condition_error(what: Seq<char>) -> SpecSemanticError {
    SpecSemanticError { code: ErrorCode::ConditionMustBeBool, message: what + " must be bool"@ }
}

/// Checks a statement; gives the environment after it, or the first error.
pub open spec fn spec_check_stmt(s: SpecStmt, ret: TypeName, fs: Seq<SpecFunction>, env: TypeEnv) -> CResult<
    TypeEnv,
>
    decreases s, 0int,
{
    match s {
        SpecStmt::VarDecl { explicit_type, name, init } => match spec_check_expr(init, fs, env) {
            Err(err) => Err(err),
            Ok(it) => {
                if explicit_type is Some && explicit_type->0 != it {
                    sem_err(
                        ErrorCode::AssignmentTypeMismatch,
                        "invalid initialization of "@ + quoted(name) + " (expected "@
                            + spec_type_debug(explicit_type->0) + ", found "@ + spec_type_debug(it)
                            + ")"@,
                    )
                } else if env.contains_key(name) {
                    sem_err(
                        ErrorCode::DuplicateParameter,
                        "variable "@ + quoted(name) + " already declared"@,
                    )
                } else {
                    Ok(env.insert(name, if explicit_type is Some { explicit_type->0 } else { it }))
                }
            },
        },
        SpecStmt::Assign { name, expr } => if !env.contains_key(name) {
            Err(undeclared(name))
        } else {
            match spec_check_expr(expr, fs, env) {
                Err(err) => Err(err),
                Ok(t) => if env[name] != t {
                    sem_err(
                        ErrorCode::AssignmentTypeMismatch,
                        "type mismatch in assignment to "@ + quoted(name) + " ("@ + spec_type_debug(
                            env[name],
                        ) + " = "@ + spec_type_debug(t) + ")"@,
                    )
                } else {
                    Ok(env)
                },
            }
        },
        SpecStmt::Return(o) => if ret == TypeName::Void {
            if o is Some {
                sem_err(ErrorCode::ReturnTypeMismatch, "returning a value from void function"@)
            } else {
                Ok(env)
            }
        } else {
            match o {
                None => sem_err(ErrorCode::NonVoidMustReturn, "non-void function must return a value"@),
                Some(x) => match spec_check_expr(x, fs, env) {
                    Err(err) => Err(err),
                    Ok(t) => if t != ret {
                        sem_err(
                            ErrorCode::ReturnTypeMismatch,
                            "return type mismatch (expected "@ + spec_type_debug(ret) + ", found "@
                                + spec_type_debug(t) + ")"@,
                        )
                    } else {
                        Ok(env)
                    },
                },
            }
        },
        SpecStmt::ExprStmt(x) => match spec_check_expr(x, fs, env) {
            Err(err) => Err(err),
            Ok(_) => Ok(env),
        },
        SpecStmt::If { cond, then_body, else_body } => match spec_check_expr(cond, fs, env) {
            Err(err) => Err(err),
            Ok(ct) => if ct != TypeName::Bool {
                Err(condition_error("if condition"@))
            } else {
                match check_stmts_from(then_body, 0, ret, fs, env) {
                    Err(err) => Err(err),
                    Ok(_) => match check_stmts_from(else_body, 0, ret, fs, env) {
                        Err(err) => Err(err),
                        Ok(_) => Ok(env),
                    },
                }
            },
        },
        SpecStmt::While { cond, body } => match spec_check_expr(cond, fs, env) {
            Err(err) => Err(err),
            Ok(ct) => if ct != TypeName::Bool {
                Err(condition_error("while condition"@))
            } else {
                match check_stmts_from(body, 0, ret, fs, env) {
                    Err(err) => Err(err),
                    Ok(_) => Ok(env),
                }
            },
        },
        SpecStmt::DoWhile { body, cond } => match spec_check_expr(cond, fs, env) {
            Err(err) => Err(err),
            Ok(ct) => if ct != TypeName::Bool {
                Err(condition_error("do-while condition"@))
            } else {
                match check_stmts_from(body, 0, ret, fs, env) {
                    Err(err) => Err(err),
                    Ok(_) => Ok(env),
                }
            },
        },
        SpecStmt::For { init, cond, step, body } => match spec_check_stmt(*init, ret, fs, env) {
            Err(err) => Err(err),
            Ok(e1) => match spec_check_expr(cond, fs, e1) {
                Err(err) => Err(err),
                Ok(ct) => if ct != TypeName::Bool {
                    Err(condition_error("for-loop condition"@))
                } else {
                    match spec_check_stmt(*step, ret, fs, e1) {
                        Err(err) => Err(err),
                        Ok(e2) => match check_stmts_from(body, 0, ret, fs, e2) {
                            Err(err) => Err(err),
                            Ok(_) => Ok(env),
                        },
                    }
                },
            },
        },
        SpecStmt::Switch { expr, cases } => match spec_check_expr(expr, fs, env) {
            Err(err) => Err(err),
            Ok(st) => if st != TypeName::Int && st != TypeName::Char {
                sem_err(ErrorCode::SwitchTypeMismatch, "switch expression must be int or char"@)
            } else {
                match check_cases_from(cases, 0, st, ret, fs, env) {
                    Err(err) => Err(err),
                    Ok(_) => Ok(env),
                }
            },
        },
        SpecStmt::Break | SpecStmt::Continue | SpecStmt::Empty => Ok(env),
    }
}

/// Checks the statements `ss[i..]` in order, each in the environment the one before left.
pub open spec fn check_stmts_from(
    ss: Seq<SpecStmt>,
    i: int,
    ret: TypeName,
    fs: Seq<SpecFunction>,
    env: TypeEnv,
) -> CResult<TypeEnv>
    decreases ss, ss.len() - i,
{
    if i < 0 || i >= ss.len() {
        Ok(env)
    } else {
        match spec_check_stmt(ss[i], ret, fs, env) {
            Err(err) => Err(err),
            Ok(e1) => check_stmts_from(ss, i + 1, ret, fs, e1),
        }
    }
}

/// The environment after the statements `ss[i..]` that pass, up to the first that fails.
pub open spec fn env_at_first_failure(
    ss: Seq<SpecStmt>,
    i: int,
    ret: TypeName,
    fs: Seq<SpecFunction>,
    env: TypeEnv,
) -> TypeEnv
    decreases ss.len() - i,
{
    if i < 0 || i >= ss.len() {
        env
    } else {
        match spec_check_stmt(ss[i], ret, fs, env) {
            Err(_) => env,
            Ok(e1) => env_at_first_failure(ss, i + 1, ret, fs, e1),
        }
    }
}

/// Checks the cases `cases[i..]` of a switch on a value of type `st`; each case body is
/// checked in a copy of the environment.
pub open spec fn check_cases_from(
    cases: Seq<(Option<SpecExpr>, Seq<SpecStmt>)>,
    i: int,
    st: TypeName,
    ret: TypeName,
    fs: Seq<SpecFunction>,
    env: TypeEnv,
) -> CResult<()>
    decreases cases, cases.len() - i,
{
    if i < 0 || i >= cases.len() {
        Ok(())
    } else {
        let label_ok = match cases[i].0 {
            None => Ok(()),
            Some(v) => match spec_check_expr(v, fs, env) {
                Err(err) => Err(err),
                Ok(t) => if t != st {
                    sem_err(ErrorCode::SwitchTypeMismatch, "switch case value type mismatch"@)
                } else {
                    Ok(())
                },
            },
        };
        match label_ok {
            Err(err) => Err(err),
            Ok(_) => match check_stmts_from(cases[i].1, 0, ret, fs, env) {
                Err(err) => Err(err),
                Ok(_) => check_cases_from(cases, i + 1, st, ret, fs, env),
            },
        }
    }
}

// ---------------------------------------------------------------------------
// Whether a body returns on every path.

/// Whether a statement returns on every path: a return; an `if` whose branches both hold a
/// statement that does; a `switch` with a default case whose case bodies all do.
pub open spec fn spec_stmt_returns(s: SpecStmt) -> bool
    decreases s, 0int,
{
    match s {
        SpecStmt::Return(_) => true,
        SpecStmt::If { then_body, else_body, .. } => then_body.len() > 0 && else_body.len() > 0
            && body_returns_from(then_body, 0) && body_returns_from(else_body, 0),
        SpecStmt::Switch { cases, .. } => cases_return_from(cases, 0) && has_default_from(cases, 0),
        _ => false,
    }
}

/// Whether one of the statements `ss[i..]` returns on every path.
pub open spec fn body_returns_from(ss: Seq<SpecStmt>, i: int) -> bool
    decreases ss, ss.len() - i,
{
    if i < 0 || i >= ss.len() {
        false
    } else {
        spec_stmt_returns(ss[i]) || body_returns_from(ss, i + 1)
    }
}

/// Whether the bodies of all of the cases `cases[i..]` return on every path.
pub open spec fn cases_return_from(cases: Seq<(Option<SpecExpr>, Seq<SpecStmt>)>, i: int) -> bool
    decreases cases, cases.len() - i,
{
    if i < 0 || i >= cases.len() {
        true
    } else {
        body_returns_from(cases[i].1, 0) && cases_return_from(cases, i + 1)
    }
}

/// Whether one of the cases `cases[i..]` is the default case.
pub open spec fn has_default_from(cases: Seq<(Option<SpecExpr>, Seq<SpecStmt>)>, i: int) -> bool
    decreases cases.len() - i,
{
    if i < 0 || i >= cases.len() {
        false
    } else {
        cases[i].0 is None || has_default_from(cases, i + 1)
    }
}

/// Whether one of the statements returns on every path.
pub open spec fn spec_body_returns(ss: Seq<SpecStmt>) -> bool {
    body_returns_from(ss, 0)
}

// ---------------------------------------------------------------------------
// Functions and programs.

/// The first index at or after `i` whose name already occurs before it.
pub open spec fn first_repeat_from(names: Seq<Seq<char>>, i: int) -> Option<int>
    decreases names.len() - i,
{
    if i < 0 || i >= names.len() {
        None
    } else if exists|j: int| 0 <= j < i && names[j] == names[i] {
        Some(i)
    } else {
        first_repeat_from(names, i + 1)
    }
}

pub open spec fn param_names(ps: Seq<SpecParam>) -> Seq<Seq<char>> {
    ps.map_values(|p: SpecParam| p.name)
}

pub open spec fn function_names(fs: Seq<SpecFunction>) -> Seq<Seq<char>> {
    fs.map_values(|f: SpecFunction| f.name)
}

/// The environment holding the parameters `ps[..n]`.
pub open spec fn params_env(ps: Seq<SpecParam>, n: int) -> TypeEnv
    decreases n,
{
    if n <= 0 {
        Map::empty()
    } else {
        params_env(ps, n - 1).insert(ps[n - 1].name, ps[n - 1].ty)
    }
}

/// Checks the signature and the statements of one function of the program `fs`: `Main`
/// returns `int`, parameter names are distinct, and every statement is well typed.
pub open spec fn spec_check_function_body(f: SpecFunction, fs: Seq<SpecFunction>) -> CResult<()> {
    if f.name == "Main"@ && f.return_type != TypeName::Int {
        sem_err(ErrorCode::MainMustReturnInt, "Main must return int"@)
    } else {
        match first_repeat_from(param_names(f.params), 0) {
            Some(i) => sem_err(
                ErrorCode::DuplicateParameter,
                "duplicate parameter "@ + quoted(f.params[i].name),
            ),
            None => match check_stmts_from(
                f.body,
                0,
                f.return_type,
                fs,
                params_env(f.params, f.params.len() as int),
            ) {
                Err(err) => Err(err),
                Ok(_) => Ok(()),
            },
        }
    }
}

/// Checks one function of the program `fs`: its signature and statements, then that a
/// function that returns a value does so on every path.
pub open spec fn spec_check_function(f: SpecFunction, fs: Seq<SpecFunction>) -> CResult<()> {
    match spec_check_function_body(f, fs) {
        Err(err) => Err(err),
        Ok(_) => if f.return_type != TypeName::Void && !spec_body_returns(f.body) {
            sem_err(
                ErrorCode::NonVoidMustReturn,
                "non-void function must return a value on all paths"@,
            )
        } else {
            Ok(())
        },
    }
}

/// Checks the functions `fs[i..]` in order, for the first error.
pub open spec fn check_functions_from(fs: Seq<SpecFunction>, i: int) -> CResult<()>
    decreases fs.len() - i,
{
    if i < 0 || i >= fs.len() {
        Ok(())
    } else {
        match spec_check_function(fs[i], fs) {
            Err(err) => Err(err),
            Ok(_) => check_functions_from(fs, i + 1),
        }
    }
}

/// The semantic check of a program: no name given to two functions, then each function.
pub open spec fn spec_check_program(fs: Seq<SpecFunction>) -> CResult<()> {
    match first_repeat_from(function_names(fs), 0) {
        Some(i) => sem_err(ErrorCode::DuplicateFunction, "duplicate function "@ + quoted(fs[i].name)),
        None => check_functions_from(fs, 0),
    }
}

/// The functions whose statements the check of `fs[i..]` gets through, in order, each with
/// whether its body returns on every path. The check stops at the first error.
pub open spec fn check_trace_from(fs: Seq<SpecFunction>, i: int) -> Seq<(int, bool)>
    decreases fs.len() - i,
{
    if i < 0 || i >= fs.len() {
        Seq::empty()
    } else if spec_check_function_body(fs[i], fs) is Err {
        Seq::empty()
    } else {
        seq![(i, spec_body_returns(fs[i].body))] + if spec_check_function(fs[i], fs) is Ok {
            check_trace_from(fs, i + 1)
        } else {
            Seq::empty()
        }
    }
}

/// The functions whose statements the check of a program gets through (see
/// `check_trace_from`); none when two functions share a name.
pub open spec fn spec_check_trace(fs: Seq<SpecFunction>) -> Seq<(int, bool)> {
    if first_repeat_from(function_names(fs), 0) is Some {
        Seq::empty()
    } else {
        check_trace_from(fs, 0)
    }
}

// ---------------------------------------------------------------------------
// Laws.

/// Arithmetic widens the same way whichever operand comes first, and the result of two
/// numbers is a number.
pub proof fn lemma_arithmetic_result_symmetric(l: TypeName, r: TypeName)
    ensures
        spec_arithmetic_result(l, r) == spec_arithmetic_result(r, l),
        spec_is_numeric(l) && spec_is_numeric(r) ==> spec_is_numeric(spec_arithmetic_result(l, r)),
{
}

proof fn lemma_no_repeat_from(names: Seq<Seq<char>>, k: int)
    requires
        0 <= k,
        first_repeat_from(names, k) is None,
    ensures
        forall|i: int, j: int| k <= i < names.len() && 0 <= j < i ==> names[j] != names[i],
    decreases names.len() - k,
{
    if k < names.len() {
        lemma_no_repeat_from(names, k + 1);
    }
}

proof fn lemma_functions_checked_from(fs: Seq<SpecFunction>, k: int)
    requires
        0 <= k,
        check_functions_from(fs, k) is Ok,
    ensures
        forall|i: int| k <= i < fs.len() ==> #[trigger] spec_check_function(fs[i], fs) is Ok,
    decreases fs.len() - k,
{
    if k < fs.len() {
        lemma_functions_checked_from(fs, k + 1);
    }
}

/// A program that passes the semantic check has functions with distinct names, each with
/// parameters of distinct names; `Main`, if there is one, returns `int`; and every function
/// that returns a value has a body that returns on every path.
pub proof fn lemma_checked_program(fs: Seq<SpecFunction>)
    requires
        spec_check_program(fs) is Ok,
    ensures
        forall|i: int, j: int| 0 <= j < i < fs.len() ==> fs[j].name != fs[i].name,
        forall|i: int| 0 <= i < fs.len() && fs[i].name == "Main"@ ==> fs[i].return_type == TypeName::Int,
        forall|i: int|
            0 <= i < fs.len() && fs[i].return_type != TypeName::Void ==> spec_body_returns(
                fs[i].body,
            ),
        forall|i: int, a: int, b: int|
            0 <= i < fs.len() && 0 <= a < b < fs[i].params.len() ==> fs[i].params[a].name
                != fs[i].params[b].name,
{
    let names = function_names(fs);
    lemma_no_repeat_from(names, 0);
    assert forall|i: int, j: int| 0 <= j < i < fs.len() implies fs[j].name != fs[i].name by {
        assert(names[j] == fs[j].name && names[i] == fs[i].name);
    }
    lemma_functions_checked_from(fs, 0);
    assert forall|i: int, a: int, b: int|
        0 <= i < fs.len() && 0 <= a < b < fs[i].params.len() implies fs[i].params[a].name
        != fs[i].params[b].name by {
        assert(spec_check_function(fs[i], fs) is Ok);
        let pn = param_names(fs[i].params);
        lemma_no_repeat_from(pn, 0);
        assert(pn[a] == fs[i].params[a].name && pn[b] == fs[i].params[b].name);
    }
    assert forall|i: int| 0 <= i < fs.len() && fs[i].name == "Main"@ implies fs[i].return_type
        == TypeName::Int by {
        assert(spec_check_function(fs[i], fs) is Ok);
    }
    assert forall|i: int|
        0 <= i < fs.len() && fs[i].return_type != TypeName::Void implies spec_body_returns(
        fs[i].body,
    ) by {
        assert(spec_check_function(fs[i], fs) is Ok);
    }
}


/// What checking a statement (`check_stmt`) does to the environment: a declaration that passes
/// adds its one new variable, which was not declared before, with the declared type or else the
/// type of its initial value; every other statement that passes (blocks, loops, `for` headers
/// and switch cases that declare variables of their own included) leaves the environment as it
/// was. A statement that fails leaves it unchanged as well (`check_stmt`'s own contract).
pub proof fn lemma_check_stmt_environment(
    s: SpecStmt,
    ret: TypeName,
    fs: Seq<SpecFunction>,
    env: TypeEnv,
)
    ensures
        match spec_check_stmt(s, ret, fs, env) {
            Ok(e1) => match s {
                SpecStmt::VarDecl { explicit_type, name, init } => {
                    &&& !env.contains_key(name)
                    &&& spec_check_expr(init, fs, env) is Ok
                    &&& e1 == env.insert(
                        name,
                        match explicit_type {
                            Some(t) => t,
                            None => spec_check_expr(init, fs, env)->Ok_0,
                        },
                    )
                },
                _ => e1 == env,
            },
            Err(_) => true,
        },
{
}


/// Ordering comparisons (`<`, `>`, `<=`, `>=`): two values of the same type can always be
/// compared, and so can any two numbers; the result is a `bool`. Any other pair of operand types
/// is refused as an invalid binary operation. The answer does not depend on which operand
/// stands on which side, and whatever `==` accepts an ordering comparison accepts too.
pub proof fn lemma_comparison_types(op: BinOp, l: TypeName, r: TypeName)
    requires
        op is Less || op is Greater || op is LessEqual || op is GreaterEqual,
    ensures
        binary_type(op, l, l) == Ok::<TypeName, SpecSemanticError>(TypeName::Bool),
        spec_is_numeric(l) && spec_is_numeric(r) ==> binary_type(op, l, r) == Ok::<
            TypeName,
            SpecSemanticError,
        >(TypeName::Bool),
        binary_type(BinOp::Equal, l, r) is Ok ==> binary_type(op, l, r) is Ok,
        binary_type(op, l, r) == binary_type(op, r, l),
        binary_type(op, l, r) is Ok <==> (l == r || (spec_is_numeric(l) && spec_is_numeric(r))),
        binary_type(op, l, r) is Ok ==> binary_type(op, l, r) == Ok::<TypeName, SpecSemanticError>(
            TypeName::Bool,
        ),
        binary_type(op, l, r) matches Err(e) ==> e.code == ErrorCode::InvalidBinaryOperation,
{
}

} // verus!
