use vstd::prelude::*;
use crate::ast::{
    BinOp, Expr, FunctionDecl, Param, Program, SpecExpr, SpecStmt, Stmt, TypeName, UnaryOp,
    exprs_view, functions_view, params_view, stmts_view, cases_view, opt_expr_view,
    lemma_exprs_view_index, lemma_stmts_view_index, lemma_cases_view_index,
};
use crate::error::{ErrorCode, SemanticError, SpecSemanticError};
use crate::text::{push_chars, push_str, push_usize_decimal, string_is, string_of};
use crate::typing::{
    CResult, TypeEnv, arg_count_error, arg_type_error, binary_type, spec_body_returns,
    body_returns_from, cases_return_from, check_all_from, check_args_from, check_cases_from,
    spec_check_expr, spec_check_function_body, check_functions_from, spec_check_program,
    check_trace_from, spec_check_trace, env_at_first_failure,
    spec_check_stmt, check_stmts_from, condition_error, find_function, find_function_from,
    first_repeat_from, function_names, has_default_from, param_names, params_env, quoted,
    spec_arithmetic_result, spec_is_numeric, spec_type_debug, spec_stmt_returns, unary_type,
    undeclared,
};
use vstd::string::StringExecFns;

verus! {

broadcast use vstd::std_specs::control_flow::group_control_flow_axioms;

// ---------------------------------------------------------------------------
// The types of the variables in scope.

/// The map that a list of bindings stands for: a later binding of a name hides an earlier one.
pub open spec fn bindings_map(s: Seq<(String, TypeName)>) -> TypeEnv
    decreases s.len(),
{
    if s.len() == 0 {
        Map::empty()
    } else {
        bindings_map(s.drop_last()).insert(s.last().0@, s.last().1)
    }
}

/// Past the bindings `s[..i]`, none binds `k`: then `k` is bound in `s` as in `s[..i]`.
proof fn lemma_bindings_prefix(s: Seq<(String, TypeName)>, i: int, k: Seq<char>)
    requires
        0 <= i <= s.len(),
        forall|j: int| i <= j < s.len() ==> #[trigger] s[j].0@ != k,
    ensures
        bindings_map(s).contains_key(k) == bindings_map(s.take(i)).contains_key(k),
        bindings_map(s).contains_key(k) ==> bindings_map(s)[k] == bindings_map(s.take(i))[k],
    decreases s.len() - i,
{
    if i < s.len() {
        let t = s.drop_last();
        assert(s.take(i) == t.take(i));
        assert forall|j: int| i <= j < t.len() implies #[trigger] t[j].0@ != k by {
            assert(t[j] == s[j]);
        }
        lemma_bindings_prefix(t, i, k);
        assert(s.last() == s[s.len() - 1]);
    } else {
        assert(s.take(i) == s);
    }
}

/// The variables in scope with their types.
pub struct VarTypes {
    bindings: Vec<(String, TypeName)>,
}

impl View for VarTypes {
    type V = TypeEnv;

    closed spec fn view(&self) -> TypeEnv {
        bindings_map(self.bindings@)
    }
}

impl VarTypes {
    /// No variable in scope.
    pub fn new() -> (r: Self)
        ensures
            r@ == Map::<Seq<char>, TypeName>::empty(),
    {
        VarTypes { bindings: Vec::new() }
    }

    /// The type of `name`, if it is in scope.
    pub fn get(&self, name: &String) -> (r: Option<TypeName>)
        ensures
            r == (if self@.contains_key(name@) {
                Some(self@[name@])
            } else {
                None
            }),
    {
        let mut i = self.bindings.len();
        while i > 0
            invariant
                i <= self.bindings.len(),
                forall|j: int| i <= j < self.bindings.len() ==> #[trigger] self.bindings@[j].0@
                    != name@,
            decreases i,
        {
            if self.bindings[i - 1].0 == *name {
                proof {
                    lemma_bindings_prefix(self.bindings@, i as int, name@);
                    let t = self.bindings@.take(i as int);
                    assert(t.drop_last() == self.bindings@.take(i - 1));
                    assert(t.last() == self.bindings@[i - 1]);
                }
                return Some(self.bindings[i - 1].1);
            }
            i = i - 1;
        }
        proof {
            lemma_bindings_prefix(self.bindings@, 0, name@);
            assert(self.bindings@.take(0) =~= Seq::<(String, TypeName)>::empty());
        }
        None
    }

    /// Binds `name` to `ty`, hiding an earlier binding of it.
    pub fn insert(&mut self, name: String, ty: TypeName)
        ensures
            final(self)@ == old(self)@.insert(name@, ty),
    {
        let ghost s = self.bindings@;
        self.bindings.push((name, ty));
        assert(self.bindings@.drop_last() == s);
    }

    /// A copy holding the same bindings.
    pub fn copy(&self) -> (r: Self)
        ensures
            r@ == self@,
    {
        let mut bindings: Vec<(String, TypeName)> = Vec::new();
        let mut i: usize = 0;
        while i < self.bindings.len()
            invariant
                i <= self.bindings.len(),
                bindings@ == self.bindings@.take(i as int),
            decreases self.bindings.len() - i,
        {
            let name = self.bindings[i].0.clone();
            bindings.push((name, self.bindings[i].1));
            i = i + 1;
            assert(bindings@ == self.bindings@.take(i as int));
        }
        assert(self.bindings@.take(i as int) == self.bindings@);
        VarTypes { bindings }
    }
}

// ---------------------------------------------------------------------------
// Types and messages.

/// Whether a type is a number: `int`, `float` or `double`.
pub fn is_numeric_ty(ty: TypeName) -> (r: bool)
    ensures
        r == spec_is_numeric(ty),
{
    match ty {
        TypeName::Int | TypeName::Float | TypeName::Double => true,
        _ => false,
    }
}

/// The type of arithmetic on two numbers: `double` if either is one, else `float` if either
/// is one, else `int`.
pub fn arithmetic_result_ty(left: TypeName, right: TypeName) -> (r: TypeName)
    ensures
        r == spec_arithmetic_result(left, right),
{
    if left == TypeName::Double || right == TypeName::Double {
        TypeName::Double
    } else if left == TypeName::Float || right == TypeName::Float {
        TypeName::Float
    } else {
        TypeName::Int
    }
}

/// The name of a type as std's derived `Debug` writes it.
pub(crate) fn type_debug(t: TypeName) -> (r: &'static str)
    ensures
        r@ == spec_type_debug(t),
{
    match t {
        TypeName::Int => "Int",
        TypeName::Bool => "Bool",
        TypeName::Void => "Void",
        TypeName::String => "String",
        TypeName::Float => "Float",
        TypeName::Double => "Double",
        TypeName::Char => "Char",
    }
}

fn error_of(code: ErrorCode, m: &str) -> (r: SemanticError)
    ensures
        r.code == code,
        r.message@ == m@,
{
    SemanticError::new(code, String::from_str(m))
}

/// `pre`, then `name` in single quotes, then `post`.
fn quoted_message(pre: &str, name: &String, post: &str) -> (r: Vec<char>)
    ensures
        r@ == pre@ + quoted(name@) + post@,
{
    let mut m: Vec<char> = Vec::new();
    push_str(&mut m, pre);
    push_str(&mut m, "'");
    push_str(&mut m, name.as_str());
    push_str(&mut m, "'");
    push_str(&mut m, post);
    assert(m@ == pre@ + quoted(name@) + post@);
    m
}

fn binary_result(op: BinOp, l: TypeName, r: TypeName) -> (res: Result<TypeName, SemanticError>)
    ensures
        match res {
            Ok(t) => binary_type(op, l, r) == Ok::<TypeName, crate::error::SpecSemanticError>(t),
            Err(e) => binary_type(op, l, r) == Err::<TypeName, crate::error::SpecSemanticError>(e@),
        },
{
    let bad = ErrorCode::InvalidBinaryOperation;
    match op {
        BinOp::Add => {
            if l == TypeName::String && r == TypeName::String {
                Ok(TypeName::String)
            } else if is_numeric_ty(l) && is_numeric_ty(r) {
                Ok(arithmetic_result_ty(l, r))
            } else {
                Err(error_of(bad, "invalid types for '+'"))
            }
        },
        BinOp::Sub | BinOp::Mul | BinOp::Div => {
            if is_numeric_ty(l) && is_numeric_ty(r) {
                Ok(arithmetic_result_ty(l, r))
            } else {
                Err(error_of(bad, "invalid numeric types for arithmetic"))
            }
        },
        BinOp::Mod => {
            if l == TypeName::Int && r == TypeName::Int {
                Ok(TypeName::Int)
            } else {
                Err(error_of(bad, "% operator requires int operands"))
            }
        },
        BinOp::Less | BinOp::Greater | BinOp::LessEqual | BinOp::GreaterEqual => {
            if (is_numeric_ty(l) && is_numeric_ty(r)) || l == r {
                Ok(TypeName::Bool)
            } else {
                Err(error_of(bad, "invalid operands for comparison"))
            }
        },
        BinOp::Equal | BinOp::NotEqual => {
            if l == r {
                Ok(TypeName::Bool)
            } else {
                Err(error_of(bad, "type mismatch for equality operator"))
            }
        },
        BinOp::And | BinOp::Or => {
            if l == TypeName::Bool && r == TypeName::Bool {
                Ok(TypeName::Bool)
            } else {
                Err(error_of(bad, "logical operators require bool operands"))
            }
        },
    }
}

fn unary_result(op: UnaryOp, t: TypeName) -> (res: Result<TypeName, SemanticError>)
    ensures
        match res {
            Ok(u) => unary_type(op, t) == Ok::<TypeName, crate::error::SpecSemanticError>(u),
            Err(e) => unary_type(op, t) == Err::<TypeName, crate::error::SpecSemanticError>(e@),
        },
{
    let bad = ErrorCode::InvalidUnaryOperation;
    match op {
        UnaryOp::Neg => {
            if is_numeric_ty(t) {
                Ok(t)
            } else {
                Err(error_of(bad, "unary '-' requires numeric type"))
            }
        },
        UnaryOp::Not => {
            if t == TypeName::Bool {
                Ok(TypeName::Bool)
            } else {
                Err(error_of(bad, "unary '!' requires bool"))
            }
        },
        _ => {
            if is_numeric_ty(t) || t == TypeName::Char {
                Ok(t)
            } else {
                Err(error_of(bad, "increment/decrement requires numeric or char type"))
            }
        },
    }
}

/// The index of the first function named `name`.
fn find_function_index(funcs: &Vec<FunctionDecl>, name: &String) -> (r: Option<usize>)
    ensures
        match r {
            Some(i) => i < funcs.len() && find_function(functions_view(funcs@), name@) == Some(
                funcs@[i as int]@,
            ),
            None => find_function(functions_view(funcs@), name@) is None,
        },
{
    let ghost fv = functions_view(funcs@);
    let mut i: usize = 0;
    while i < funcs.len()
        invariant
            i <= funcs.len(),
            fv == functions_view(funcs@),
            find_function_from(fv, name@, 0) == find_function_from(fv, name@, i as int),
        decreases funcs.len() - i,
    {
        if funcs[i].name == *name {
            return Some(i);
        }
        i = i + 1;
    }
    None
}

// ---------------------------------------------------------------------------
// Checking.

/// Whether an executable result agrees with its model: the same value, or the same error.
pub open spec fn same_result<T>(r: Result<T, SemanticError>, s: CResult<T>) -> bool {
    match r {
        Ok(t) => s == Ok::<T, SpecSemanticError>(t),
        Err(e) => s == Err::<T, SpecSemanticError>(e@),
    }
}

/// Whether a statement check agrees with its model, `env` being the environment after it.
pub open spec fn same_outcome(r: Result<(), SemanticError>, s: CResult<TypeEnv>, env: TypeEnv) -> bool {
    match r {
        Ok(_) => s == Ok::<TypeEnv, SpecSemanticError>(env),
        Err(e) => s == Err::<TypeEnv, SpecSemanticError>(e@),
    }
}

fn undeclared_error(name: &String) -> (r: SemanticError)
    ensures
        r@ == undeclared(name@),
{
    let m = quoted_message("use of undeclared variable ", name, "");
    proof {
        reveal_strlit("");
    }
    assert(m@ =~= "use of undeclared variable "@ + quoted(name@));
    SemanticError::new(ErrorCode::UndeclaredVariable, string_of(&m))
}

fn type_message(pre: &Vec<char>, a: TypeName, mid: &str, b: TypeName) -> (r: Vec<char>)
    ensures
        r@ == pre@ + spec_type_debug(a) + mid@ + spec_type_debug(b) + ")"@,
{
    let mut m: Vec<char> = Vec::new();
    push_chars(&mut m, pre);
    push_str(&mut m, type_debug(a));
    push_str(&mut m, mid);
    push_str(&mut m, type_debug(b));
    push_str(&mut m, ")");
    m
}

/// The type of a call of `name` with the arguments `args`, or the first error in it.
#[verifier::spinoff_prover]
fn check_call(name: &String, args: &Vec<Expr>, funcs: &Vec<FunctionDecl>, env: &VarTypes) -> (r:
    Result<TypeName, SemanticError>)
    ensures
        same_result(
            r,
            spec_check_expr(
                SpecExpr::Call { name: name@, args: exprs_view(args@) },
                functions_view(funcs@),
                env@,
            ),
        ),
    decreases args,
{
    let ghost fv = functions_view(funcs@);
    let ghost av = exprs_view(args@);
    proof {
        lemma_exprs_view_index(args@);
    }
    if string_is(name, "print") {
        let mut i: usize = 0;
        while i < args.len()
            invariant
                i <= args.len(),
                name@ == "print"@,
                fv == functions_view(funcs@),
                av == exprs_view(args@),
                av.len() == args.len(),
                forall|k: int| 0 <= k < args.len() ==> #[trigger] av[k] == args@[k]@,
                check_all_from(av, 0, fv, env@) == check_all_from(av, i as int, fv, env@),
            decreases args.len() - i,
        {
            proof {
                assert(decreases_to!(args => args@[i as int]));
            }
            match check_expr(&args[i], funcs, env) {
                Err(e) => {
                    return Err(e);
                },
                Ok(_) => {},
            }
            i = i + 1;
        }
        return Ok(TypeName::Void);
    }
    let idx = match find_function_index(funcs, name) {
        None => {
            let m = quoted_message("undefined function ", name, "");
            proof {
                reveal_strlit("");
            }
            assert(m@ =~= "undefined function "@ + quoted(name@));
            return Err(SemanticError::new(ErrorCode::UndefinedFunction, string_of(&m)));
        },
        Some(j) => j,
    };
    let decl = &funcs[idx];
    if decl.params.len() != args.len() {
        let mut m = quoted_message("function ", name, " expects ");
        push_usize_decimal(&mut m, decl.params.len());
        push_str(&mut m, " arguments, got ");
        push_usize_decimal(&mut m, args.len());
        assert(m@ == arg_count_error(name@, decl.params.len() as nat, args.len() as nat).message);
        return Err(SemanticError::new(ErrorCode::FunctionArgCountMismatch, string_of(&m)));
    }
    let ghost pv = params_view(decl.params@);
    let mut i: usize = 0;
    while i < args.len()
        invariant
            i <= args.len(),
            name@ != "print"@,
            idx < funcs.len(),
            decl == funcs@[idx as int],
            find_function(fv, name@) == Some(funcs@[idx as int]@),
            decl.params.len() == args.len(),
            fv == functions_view(funcs@),
            av == exprs_view(args@),
            av.len() == args.len(),
            forall|k: int| 0 <= k < args.len() ==> #[trigger] av[k] == args@[k]@,
            pv == params_view(decl.params@),
            check_args_from(name@, av, pv, 0, fv, env@) == check_args_from(
                name@,
                av,
                pv,
                i as int,
                fv,
                env@,
            ),
        decreases args.len() - i,
    {
        proof {
            assert(decreases_to!(args => args@[i as int]));
        }
        let t = match check_expr(&args[i], funcs, env) {
            Err(e) => {
                return Err(e);
            },
            Ok(t) => t,
        };
        let pt = decl.params[i].ty;
        if t != pt {
            let pre = quoted_message("function ", name, " argument type mismatch (expected ");
            let m = type_message(&pre, pt, ", found ", t);
            assert(m@ == arg_type_error(name@, pt, t).message);
            return Err(SemanticError::new(ErrorCode::FunctionArgTypeMismatch, string_of(&m)));
        }
        i = i + 1;
    }
    Ok(decl.return_type)
}

/// The type of an expression, or the first error in it.
#[verifier::spinoff_prover]
fn check_expr(expr: &Expr, funcs: &Vec<FunctionDecl>, env: &VarTypes) -> (r: Result<TypeName, SemanticError>)
    ensures
        same_result(r, spec_check_expr(expr@, functions_view(funcs@), env@)),
    decreases expr,
{
    match expr {
        Expr::Number(_) => Ok(TypeName::Int),
        Expr::Float(_) => Ok(TypeName::Float),
        Expr::BoolLiteral(_) => Ok(TypeName::Bool),
        Expr::StringLiteral(_) => Ok(TypeName::String),
        Expr::CharLiteral(_) => Ok(TypeName::Char),
        Expr::Var(name) => match env.get(name) {
            Some(t) => Ok(t),
            None => Err(undeclared_error(name)),
        },
        Expr::Call { name, args } => check_call(name, args, funcs, env),
        Expr::Binary { op, left, right } => {
            let lt = check_expr(left, funcs, env)?;
            let rt = check_expr(right, funcs, env)?;
            binary_result(*op, lt, rt)
        },
        Expr::Unary { op, expr } => {
            let t = check_expr(expr, funcs, env)?;
            unary_result(*op, t)
        },
        Expr::Ternary { cond, then_expr, else_expr } => {
            let ct = check_expr(cond, funcs, env)?;
            if ct != TypeName::Bool {
                return Err(error_of(ErrorCode::ConditionMustBeBool, "ternary condition must be bool"));
            }
            let tt = check_expr(then_expr, funcs, env)?;
            let et = check_expr(else_expr, funcs, env)?;
            if tt == et {
                Ok(tt)
            } else {
                Err(error_of(ErrorCode::TernaryTypeMismatch, "ternary branches must have the same type"))
            }
        },
        Expr::Paren(inner) => check_expr(inner, funcs, env),
    }
}

fn condition_err(what: &str) -> (r: SemanticError)
    ensures
        r@ == condition_error(what@),
{
    let mut m: Vec<char> = Vec::new();
    push_str(&mut m, what);
    push_str(&mut m, " must be bool");
    SemanticError::new(ErrorCode::ConditionMustBeBool, string_of(&m))
}

/// Checks the statements in order, each in the environment the one before left.
#[verifier::spinoff_prover]
fn check_stmts(
    stmts: &Vec<Stmt>,
    ret_ty: TypeName,
    funcs: &Vec<FunctionDecl>,
    env: &mut VarTypes,
) -> (r: Result<(), SemanticError>)
    ensures
        same_outcome(
            r,
            check_stmts_from(stmts_view(stmts@), 0, ret_ty, functions_view(funcs@), old(env)@),
            final(env)@,
        ),
        r is Err ==> final(env)@ == env_at_first_failure(
            stmts_view(stmts@),
            0,
            ret_ty,
            functions_view(funcs@),
            old(env)@,
        ),
    decreases stmts, 0int,
{
    let ghost fv = functions_view(funcs@);
    let ghost sv = stmts_view(stmts@);
    proof {
        lemma_stmts_view_index(stmts@);
    }
    let mut i: usize = 0;
    while i < stmts.len()
        invariant
            i <= stmts.len(),
            fv == functions_view(funcs@),
            sv == stmts_view(stmts@),
            sv.len() == stmts.len(),
            forall|k: int| 0 <= k < stmts.len() ==> #[trigger] sv[k] == stmts@[k]@,
            check_stmts_from(sv, 0, ret_ty, fv, old(env)@) == check_stmts_from(
                sv,
                i as int,
                ret_ty,
                fv,
                env@,
            ),
            env_at_first_failure(sv, 0, ret_ty, fv, old(env)@) == env_at_first_failure(
                sv,
                i as int,
                ret_ty,
                fv,
                env@,
            ),
        decreases stmts.len() - i,
    {
        proof {
            assert(decreases_to!(stmts => stmts@[i as int]));
        }
        check_stmt(&stmts[i], ret_ty, funcs, env)?;
        i = i + 1;
    }
    Ok(())
}

/// Checks the cases of a switch on a value of type `st`, each body in a copy of `env`.
#[verifier::spinoff_prover]
fn check_cases(
    cases: &Vec<(Option<Expr>, Vec<Stmt>)>,
    st: TypeName,
    ret_ty: TypeName,
    funcs: &Vec<FunctionDecl>,
    env: &VarTypes,
) -> (r: Result<(), SemanticError>)
    ensures
        same_result(r, check_cases_from(cases_view(cases@), 0, st, ret_ty, functions_view(funcs@), env@)),
    decreases cases, 0int,
{
    let ghost fv = functions_view(funcs@);
    let ghost cv = cases_view(cases@);
    proof {
        lemma_cases_view_index(cases@);
    }
    let mut i: usize = 0;
    while i < cases.len()
        invariant
            i <= cases.len(),
            fv == functions_view(funcs@),
            cv == cases_view(cases@),
            cv.len() == cases.len(),
            forall|k: int|
                0 <= k < cases.len() ==> #[trigger] cv[k] == (
                opt_expr_view(cases@[k].0),
                stmts_view(cases@[k].1@),
            ),
            check_cases_from(cv, 0, st, ret_ty, fv, env@) == check_cases_from(
                cv,
                i as int,
                st,
                ret_ty,
                fv,
                env@,
            ),
        decreases cases.len() - i,
    {
        proof {
            assert(decreases_to!(cases => cases@[i as int]));
        }
        let case = &cases[i];
        if let Some(v) = &case.0 {
            proof {
                assert(decreases_to!(cases => v));
            }
            let t = check_expr(v, funcs, env)?;
            if t != st {
                return Err(error_of(ErrorCode::SwitchTypeMismatch, "switch case value type mismatch"));
            }
        }
        let mut case_env = env.copy();
        proof {
            assert(decreases_to!(cases => case.1));
        }
        check_stmts(&case.1, ret_ty, funcs, &mut case_env)?;
        i = i + 1;
    }
    Ok(())
}

/// Checks the declaration of `name`, of type `explicit_type` if given, with value `init`.
#[verifier::spinoff_prover]
fn check_var_decl(
    explicit_type: Option<TypeName>,
    name: &String,
    init: &Expr,
    funcs: &Vec<FunctionDecl>,
    env: &mut VarTypes,
) -> (r: Result<(), SemanticError>)
    ensures
        r is Err ==> final(env)@ == old(env)@,
        same_outcome(
            r,
            spec_check_stmt(
                SpecStmt::VarDecl { explicit_type, name: name@, init: init@ },
                TypeName::Void,
                functions_view(funcs@),
                old(env)@,
            ),
            final(env)@,
        ),
{
    let init_ty = check_expr(init, funcs, env)?;
    let decl_ty = match explicit_type {
        Some(expected) => {
            if expected != init_ty {
                let pre = quoted_message("invalid initialization of ", name, " (expected ");
                let m = type_message(&pre, expected, ", found ", init_ty);
                return Err(SemanticError::new(ErrorCode::AssignmentTypeMismatch, string_of(&m)));
            }
            expected
        },
        None => init_ty,
    };
    if env.get(name).is_some() {
        let m = quoted_message("variable ", name, " already declared");
        return Err(SemanticError::new(ErrorCode::DuplicateParameter, string_of(&m)));
    }
    env.insert(name.clone(), decl_ty);
    Ok(())
}

/// Checks the assignment of `expr` to `name`.
#[verifier::spinoff_prover]
fn check_assign(name: &String, expr: &Expr, funcs: &Vec<FunctionDecl>, env: &VarTypes) -> (r: Result<
    (),
    SemanticError,
>)
    ensures
        same_outcome(
            r,
            spec_check_stmt(
                SpecStmt::Assign { name: name@, expr: expr@ },
                TypeName::Void,
                functions_view(funcs@),
                env@,
            ),
            env@,
        ),
{
    let var_ty = match env.get(name) {
        Some(t) => t,
        None => {
            return Err(undeclared_error(name));
        },
    };
    let expr_ty = check_expr(expr, funcs, env)?;
    if var_ty != expr_ty {
        let pre = quoted_message("type mismatch in assignment to ", name, " (");
        let m = type_message(&pre, var_ty, " = ", expr_ty);
        return Err(SemanticError::new(ErrorCode::AssignmentTypeMismatch, string_of(&m)));
    }
    Ok(())
}

/// Checks a return, with or without a value, against the return type `ret_ty`.
#[verifier::spinoff_prover]
fn check_return(opt_expr: &Option<Expr>, ret_ty: TypeName, funcs: &Vec<FunctionDecl>, env: &VarTypes) -> (r:
    Result<(), SemanticError>)
    ensures
        same_outcome(
            r,
            spec_check_stmt(
                SpecStmt::Return(opt_expr_view(*opt_expr)),
                ret_ty,
                functions_view(funcs@),
                env@,
            ),
            env@,
        ),
{
    if ret_ty == TypeName::Void {
        if opt_expr.is_some() {
            return Err(error_of(ErrorCode::ReturnTypeMismatch, "returning a value from void function"));
        }
        Ok(())
    } else {
        match opt_expr {
            None => Err(error_of(ErrorCode::NonVoidMustReturn, "non-void function must return a value")),
            Some(expr) => {
                let expr_ty = check_expr(expr, funcs, env)?;
                if expr_ty != ret_ty {
                    let mut pre: Vec<char> = Vec::new();
                    push_str(&mut pre, "return type mismatch (expected ");
                    let m = type_message(&pre, ret_ty, ", found ", expr_ty);
                    return Err(SemanticError::new(ErrorCode::ReturnTypeMismatch, string_of(&m)));
                }
                Ok(())
            },
        }
    }
}

/// Checks an `if` statement; `env` is left as it was.
#[verifier::spinoff_prover]
fn check_if(stmt: &Stmt, ret_ty: TypeName, funcs: &Vec<FunctionDecl>, env: &mut VarTypes) -> (r: Result<
    (),
    SemanticError,
>)
    requires
        stmt is If,
    ensures
        same_outcome(r, spec_check_stmt(stmt@, ret_ty, functions_view(funcs@), old(env)@), final(env)@),
        final(env)@ == old(env)@,
    decreases stmt, 0int,
{
    if let Stmt::If { cond, then_body, else_body } = stmt {
        let cond_ty = check_expr(cond, funcs, env)?;
        if cond_ty != TypeName::Bool {
            return Err(condition_err("if condition"));
        }
        let mut then_env = env.copy();
        let mut else_env = env.copy();
        check_stmts(then_body, ret_ty, funcs, &mut then_env)?;
        check_stmts(else_body, ret_ty, funcs, &mut else_env)?;
    }
    Ok(())
}

/// Checks a `while` or `do`-`while` statement; `env` is left as it was.
#[verifier::spinoff_prover]
fn check_loop(stmt: &Stmt, ret_ty: TypeName, funcs: &Vec<FunctionDecl>, env: &mut VarTypes) -> (r:
    Result<(), SemanticError>)
    requires
        stmt is While || stmt is DoWhile,
    ensures
        same_outcome(r, spec_check_stmt(stmt@, ret_ty, functions_view(funcs@), old(env)@), final(env)@),
        final(env)@ == old(env)@,
    decreases stmt, 0int,
{
    let (cond, body, what) = match stmt {
        Stmt::While { cond, body } => (cond, body, "while condition"),
        Stmt::DoWhile { body, cond } => (cond, body, "do-while condition"),
        _ => {
            return Ok(());
        },
    };
    let cond_ty = check_expr(cond, funcs, env)?;
    if cond_ty != TypeName::Bool {
        return Err(condition_err(what));
    }
    let mut body_env = env.copy();
    check_stmts(body, ret_ty, funcs, &mut body_env)?;
    Ok(())
}

/// Checks a `for` statement in a copy of `env`; `env` is left as it was.
#[verifier::spinoff_prover]
fn check_for(stmt: &Stmt, ret_ty: TypeName, funcs: &Vec<FunctionDecl>, env: &mut VarTypes) -> (r:
    Result<(), SemanticError>)
    requires
        stmt is For,
    ensures
        same_outcome(r, spec_check_stmt(stmt@, ret_ty, functions_view(funcs@), old(env)@), final(env)@),
        final(env)@ == old(env)@,
    decreases stmt, 0int,
{
    if let Stmt::For { init, cond, step, body } = stmt {
        let mut for_env = env.copy();
        check_stmt(init, ret_ty, funcs, &mut for_env)?;
        let cond_ty = check_expr(cond, funcs, &for_env)?;
        if cond_ty != TypeName::Bool {
            return Err(condition_err("for-loop condition"));
        }
        check_stmt(step, ret_ty, funcs, &mut for_env)?;
        check_stmts(body, ret_ty, funcs, &mut for_env)?;
    }
    Ok(())
}

/// Checks a `switch` statement; `env` is left as it was.
#[verifier::spinoff_prover]
fn check_switch(stmt: &Stmt, ret_ty: TypeName, funcs: &Vec<FunctionDecl>, env: &mut VarTypes) -> (r:
    Result<(), SemanticError>)
    requires
        stmt is Switch,
    ensures
        same_outcome(r, spec_check_stmt(stmt@, ret_ty, functions_view(funcs@), old(env)@), final(env)@),
        final(env)@ == old(env)@,
    decreases stmt, 0int,
{
    if let Stmt::Switch { expr, cases } = stmt {
        let switch_ty = check_expr(expr, funcs, env)?;
        if !(switch_ty == TypeName::Int || switch_ty == TypeName::Char) {
            return Err(error_of(ErrorCode::SwitchTypeMismatch, "switch expression must be int or char"));
        }
        check_cases(cases, switch_ty, ret_ty, funcs, env)?;
    }
    Ok(())
}

/// Checks a statement against the return type of its function; a declaration adds its
/// variable to `env`.
#[verifier::spinoff_prover]
pub fn check_stmt(stmt: &Stmt, ret_ty: TypeName, funcs: &Vec<FunctionDecl>, env: &mut VarTypes) -> (r:
    Result<(), SemanticError>)
    ensures
        r is Err ==> final(env)@ == old(env)@,
        same_outcome(r, spec_check_stmt(stmt@, ret_ty, functions_view(funcs@), old(env)@), final(env)@),
    decreases stmt, 1int,
{
    match stmt {
        Stmt::VarDecl { explicit_type, name, init } => check_var_decl(*explicit_type, name, init, funcs, env),
        Stmt::Assign { name, expr } => check_assign(name, expr, funcs, env),
        Stmt::Return(opt_expr) => check_return(opt_expr, ret_ty, funcs, env),
        Stmt::ExprStmt(expr) => {
            let _ = check_expr(expr, funcs, env)?;
            Ok(())
        },
        Stmt::If { .. } => check_if(stmt, ret_ty, funcs, env),
        Stmt::While { .. } | Stmt::DoWhile { .. } => check_loop(stmt, ret_ty, funcs, env),
        Stmt::For { .. } => check_for(stmt, ret_ty, funcs, env),
        Stmt::Switch { .. } => check_switch(stmt, ret_ty, funcs, env),
        Stmt::Break | Stmt::Continue => Ok(()),
        Stmt::Empty => Ok(()),
    }
}

// ---------------------------------------------------------------------------
// Return on every path.

/// Whether one of the statements returns on every path.
#[verifier::spinoff_prover]
fn body_guaranteed_return(stmts: &Vec<Stmt>) -> (r: bool)
    ensures
        r == spec_body_returns(stmts_view(stmts@)),
    decreases stmts, 0int,
{
    let ghost sv = stmts_view(stmts@);
    proof {
        lemma_stmts_view_index(stmts@);
    }
    let mut i: usize = 0;
    while i < stmts.len()
        invariant
            i <= stmts.len(),
            sv == stmts_view(stmts@),
            sv.len() == stmts.len(),
            forall|k: int| 0 <= k < stmts.len() ==> #[trigger] sv[k] == stmts@[k]@,
            body_returns_from(sv, 0) == body_returns_from(sv, i as int),
        decreases stmts.len() - i,
    {
        proof {
            assert(decreases_to!(stmts => stmts@[i as int]));
        }
        if stmt_guaranteed_return(&stmts[i]) {
            return true;
        }
        i = i + 1;
    }
    false
}

/// Whether every case body of a switch returns on every path and one case is the default.
#[verifier::spinoff_prover]
fn cases_guaranteed_return(cases: &Vec<(Option<Expr>, Vec<Stmt>)>) -> (r: bool)
    ensures
        r == (cases_return_from(cases_view(cases@), 0) && has_default_from(cases_view(cases@), 0)),
    decreases cases, 0int,
{
    let ghost cv = cases_view(cases@);
    proof {
        lemma_cases_view_index(cases@);
    }
    let mut has_default = false;
    let mut i: usize = 0;
    while i < cases.len()
        invariant
            i <= cases.len(),
            cv == cases_view(cases@),
            cv.len() == cases.len(),
            forall|k: int|
                0 <= k < cases.len() ==> #[trigger] cv[k] == (
                opt_expr_view(cases@[k].0),
                stmts_view(cases@[k].1@),
            ),
            cases_return_from(cv, 0) == cases_return_from(cv, i as int),
            has_default_from(cv, 0) == (has_default || has_default_from(cv, i as int)),
        decreases cases.len() - i,
    {
        proof {
            assert(decreases_to!(cases => cases@[i as int]));
        }
        let case = &cases[i];
        if case.0.is_none() {
            has_default = true;
        }
        proof {
            assert(decreases_to!(cases => case.1));
        }
        if !body_guaranteed_return(&case.1) {
            return false;
        }
        i = i + 1;
    }
    has_default
}

/// Whether a statement returns on every path: a return; an `if` whose branches both hold a
/// statement that does; a `switch` with a default case whose case bodies all do.
#[verifier::spinoff_prover]
fn stmt_guaranteed_return(stmt: &Stmt) -> (r: bool)
    ensures
        r == spec_stmt_returns(stmt@),
    decreases stmt, 1int,
{
    match stmt {
        Stmt::Return(_) => true,
        Stmt::If { then_body, else_body, .. } => {
            proof {
                lemma_stmts_view_index(then_body@);
                lemma_stmts_view_index(else_body@);
            }
            then_body.len() > 0 && else_body.len() > 0 && body_guaranteed_return(then_body)
                && body_guaranteed_return(else_body)
        },
        Stmt::Switch { cases, .. } => cases_guaranteed_return(cases),
        _ => false,
    }
}

// ---------------------------------------------------------------------------
// Functions and programs.

/// The first parameter whose name an earlier parameter already has.
fn first_repeated_param(params: &Vec<Param>) -> (r: Option<usize>)
    ensures
        match r {
            Some(i) => i < params.len() && first_repeat_from(param_names(params_view(params@)), 0)
                == Some(i as int),
            None => first_repeat_from(param_names(params_view(params@)), 0) is None,
        },
{
    let ghost names = param_names(params_view(params@));
    let mut i: usize = 0;
    while i < params.len()
        invariant
            i <= params.len(),
            names == param_names(params_view(params@)),
            names.len() == params.len(),
            first_repeat_from(names, 0) == first_repeat_from(names, i as int),
        decreases params.len() - i,
    {
        let mut j: usize = 0;
        while j < i
            invariant
                j <= i < params.len(),
                names == param_names(params_view(params@)),
                names.len() == params.len(),
                first_repeat_from(names, 0) == first_repeat_from(names, i as int),
                forall|k: int| 0 <= k < j ==> names[k] != names[i as int],
            decreases i - j,
        {
            if params[j].name == params[i].name {
                assert(names[j as int] == names[i as int]);
                return Some(i);
            }
            j = j + 1;
        }
        i = i + 1;
    }
    None
}

/// The first function whose name an earlier function already has.
fn first_repeated_function(funcs: &Vec<FunctionDecl>) -> (r: Option<usize>)
    ensures
        match r {
            Some(i) => i < funcs.len() && first_repeat_from(function_names(functions_view(funcs@)), 0)
                == Some(i as int),
            None => first_repeat_from(function_names(functions_view(funcs@)), 0) is None,
        },
{
    let ghost names = function_names(functions_view(funcs@));
    let mut i: usize = 0;
    while i < funcs.len()
        invariant
            i <= funcs.len(),
            names == function_names(functions_view(funcs@)),
            names.len() == funcs.len(),
            first_repeat_from(names, 0) == first_repeat_from(names, i as int),
        decreases funcs.len() - i,
    {
        let mut j: usize = 0;
        while j < i
            invariant
                j <= i < funcs.len(),
                names == function_names(functions_view(funcs@)),
                names.len() == funcs.len(),
                first_repeat_from(names, 0) == first_repeat_from(names, i as int),
                forall|k: int| 0 <= k < j ==> names[k] != names[i as int],
            decreases i - j,
        {
            if funcs[j].name == funcs[i].name {
                assert(names[j as int] == names[i as int]);
                return Some(i);
            }
            j = j + 1;
        }
        i = i + 1;
    }
    None
}

/// Checks the signature and the statements of one function of the program whose functions
/// are `funcs`.
#[verifier::spinoff_prover]
fn check_function_body(func: &FunctionDecl, funcs: &Vec<FunctionDecl>) -> (r: Result<(), SemanticError>)
    ensures
        same_result(r, spec_check_function_body(func@, functions_view(funcs@))),
{
    if string_is(&func.name, "Main") && func.return_type != TypeName::Int {
        return Err(error_of(ErrorCode::MainMustReturnInt, "Main must return int"));
    }
    if let Some(i) = first_repeated_param(&func.params) {
        let m = quoted_message("duplicate parameter ", &func.params[i].name, "");
        proof {
            reveal_strlit("");
        }
        assert(m@ =~= "duplicate parameter "@ + quoted(func.params@[i as int].name@));
        return Err(SemanticError::new(ErrorCode::DuplicateParameter, string_of(&m)));
    }
    let ghost pv = params_view(func.params@);
    let mut env = VarTypes::new();
    let mut i: usize = 0;
    while i < func.params.len()
        invariant
            i <= func.params.len(),
            pv == params_view(func.params@),
            env@ == params_env(pv, i as int),
        decreases func.params.len() - i,
    {
        env.insert(func.params[i].name.clone(), func.params[i].ty);
        i = i + 1;
    }
    check_stmts(&func.body, func.return_type, funcs, &mut env)?;
    Ok(())
}

/// The trace of a check as the model has it: indices as integers.
pub open spec fn trace_view(t: Seq<(usize, bool)>) -> Seq<(int, bool)> {
    t.map_values(|e: (usize, bool)| (e.0 as int, e.1))
}

/// The semantic check of a program (see `check_program`), together with the functions whose
/// statements it got through, in order, each with whether its body returns on every path.
pub fn check_program_traced(program: &Program) -> (r: (Result<(), SemanticError>, Vec<(usize, bool)>))
    ensures
        same_result(r.0, spec_check_program(program@)),
        trace_view(r.1@) == spec_check_trace(program@),
{
    let funcs = &program.functions;
    let mut trace: Vec<(usize, bool)> = Vec::new();
    if let Some(i) = first_repeated_function(funcs) {
        let m = quoted_message("duplicate function ", &funcs[i].name, "");
        proof {
            reveal_strlit("");
        }
        assert(m@ =~= "duplicate function "@ + quoted(funcs@[i as int].name@));
        assert(trace_view(trace@) =~= Seq::<(int, bool)>::empty());
        return (Err(SemanticError::new(ErrorCode::DuplicateFunction, string_of(&m))), trace);
    }
    let ghost fv = functions_view(funcs@);
    let mut i: usize = 0;
    while i < funcs.len()
        invariant
            i <= funcs.len(),
            fv == functions_view(funcs@),
            funcs == &program.functions,
            first_repeat_from(function_names(fv), 0) is None,
            check_functions_from(fv, 0) == check_functions_from(fv, i as int),
            check_trace_from(fv, 0) == trace_view(trace@) + check_trace_from(fv, i as int),
        decreases funcs.len() - i,
    {
        let ghost before = trace_view(trace@);
        let func = &funcs[i];
        if let Err(e) = check_function_body(func, funcs) {
            assert(check_trace_from(fv, 0) =~= trace_view(trace@));
            return (Err(e), trace);
        }
        let guaranteed = body_guaranteed_return(&func.body);
        trace.push((i, guaranteed));
        assert(trace_view(trace@) =~= before.push((i as int, guaranteed)));
        if func.return_type != TypeName::Void && !guaranteed {
            assert(check_trace_from(fv, 0) =~= trace_view(trace@));
            return (
                Err(error_of(ErrorCode::NonVoidMustReturn, "non-void function must return a value on all paths")),
                trace,
            );
        }
        assert(check_trace_from(fv, 0) =~= trace_view(trace@) + check_trace_from(fv, i + 1));
        i = i + 1;
    }
    assert(trace_view(trace@) + Seq::<(int, bool)>::empty() =~= trace_view(trace@));
    (Ok(()), trace)
}

/// The semantic check of a program: no two functions share a name; `Main`, if there is one,
/// returns `int`; in each function, parameter names are distinct, every statement is well
/// typed, and a function that returns a value does so on every path. Gives the first error.
pub fn check_program(program: &Program) -> (r: Result<(), SemanticError>)
    ensures
        same_result(r, spec_check_program(program@)),
{
    check_program_traced(program).0
}

} // verus!
