use vstd::prelude::*;
use crate::ast::{
    BinOp, Expr, FunctionDecl, Param, Program, SpecFunction, Stmt, TypeName, UnaryOp,
    exprs_view, params_view, stmts_view, cases_view, opt_expr_view, lemma_exprs_view_index,
    lemma_stmts_view_index, lemma_cases_view_index,
};
use crate::emit::{
    spec_binop_str, spec_cpp_header, spec_cpp_type, spec_decl_head, spec_deeper,
    spec_emit_args_from, spec_emit_cases_from, spec_emit_expr, spec_emit_expr_stmt,
    spec_emit_function, spec_emit_params_from, spec_emit_stmt, spec_emit_stmts_from,
    spec_escape_in_char, spec_escape_string, spec_for_init, spec_for_step, spec_generate_cpp,
    spec_indent, spec_lines_from, spec_print_rest_from,
};
use crate::text::{chars_of, push_i64_decimal, push_str, string_is, string_of};
use rayon::iter::{IntoParallelRefIterator, ParallelIterator};

verus! {

/// The C++ spelling of a type.
pub fn cpp_type(ty: TypeName) -> (r: &'static str)
    ensures
        r@ == spec_cpp_type(ty),
{
    match ty {
        TypeName::Int => "int",
        TypeName::Bool => "bool",
        TypeName::Void => "void",
        TypeName::String => "std::string",
        TypeName::Float => "float",
        TypeName::Double => "double",
        TypeName::Char => "char",
    }
}

/// Appends four spaces for each level.
fn indent(out: &mut Vec<char>, level: usize)
    ensures
        final(out)@ == old(out)@ + spec_indent(level as nat),
{
    let ghost start = out@;
    let mut i: usize = 0;
    while i < level
        invariant
            i <= level,
            out@ == start + spec_indent(i as nat),
        decreases level - i,
    {
        push_str(out, "    ");
        i = i + 1;
        assert(out@ =~= start + spec_indent(i as nat));
    }
}

fn deeper(level: usize) -> (r: usize)
    ensures
        r == spec_deeper(level),
{
    if level == usize::MAX {
        0
    } else {
        level + 1
    }
}

fn push_string(out: &mut Vec<char>, s: &String)
    ensures
        final(out)@ == old(out)@ + s@,
{
    push_str(out, s.as_str());
}

/// Appends the characters of `s`, each escaped for a C++ string literal.
fn push_escaped_string(out: &mut Vec<char>, s: &String)
    ensures
        final(out)@ == old(out)@ + spec_escape_string(s@),
{
    let ghost start = out@;
    let cs = chars_of(s.as_str());
    let mut i: usize = 0;
    while i < cs.len()
        invariant
            i <= cs.len(),
            cs@ == s@,
            out@ == start + spec_escape_string(cs@.take(i as int)),
        decreases cs.len() - i,
    {
        let c = cs[i];
        if c == '\\' {
            push_str(out, "\\\\");
        } else if c == '"' {
            push_str(out, "\\\"");
        } else if c == '\n' {
            push_str(out, "\\n");
        } else if c == '\r' {
            push_str(out, "\\r");
        } else if c == '\t' {
            push_str(out, "\\t");
        } else {
            out.push(c);
        }
        proof {
            reveal_strlit("\\\\");
            reveal_strlit("\\\"");
            reveal_strlit("\\n");
            reveal_strlit("\\r");
            reveal_strlit("\\t");
            let t = cs@.take(i + 1);
            assert(t.drop_last() =~= cs@.take(i as int));
            assert(t.last() == c);
        }
        i = i + 1;
        assert(out@ =~= start + spec_escape_string(cs@.take(i as int)));
    }
    assert(cs@.take(cs.len() as int) =~= s@);
}

/// Appends a character escaped for a C++ character literal.
fn push_escaped_char(out: &mut Vec<char>, c: char)
    ensures
        final(out)@ == old(out)@ + spec_escape_in_char(c),
{
    proof {
        reveal_strlit("\\\\");
        reveal_strlit("\\'");
        reveal_strlit("\\n");
        reveal_strlit("\\r");
        reveal_strlit("\\t");
    }
    if c == '\\' {
        push_str(out, "\\\\");
    } else if c == '\'' {
        push_str(out, "\\'");
    } else if c == '\n' {
        push_str(out, "\\n");
    } else if c == '\r' {
        push_str(out, "\\r");
    } else if c == '\t' {
        push_str(out, "\\t");
    } else {
        out.push(c);
    }
}

fn binop_str(op: BinOp) -> (r: &'static str)
    ensures
        r@ == spec_binop_str(op),
{
    match op {
        BinOp::Add => " + ",
        BinOp::Sub => " - ",
        BinOp::Mul => " * ",
        BinOp::Div => " / ",
        BinOp::Mod => " % ",
        BinOp::Less => " < ",
        BinOp::Greater => " > ",
        BinOp::LessEqual => " <= ",
        BinOp::GreaterEqual => " >= ",
        BinOp::Equal => " == ",
        BinOp::NotEqual => " != ",
        BinOp::And => " && ",
        BinOp::Or => " || ",
    }
}

/// Appends the arguments of a call, separated by commas.
#[verifier::spinoff_prover]
fn emit_args(out: &mut Vec<char>, args: &Vec<Expr>)
    ensures
        final(out)@ == old(out)@ + spec_emit_args_from(exprs_view(args@), 0),
    decreases args, 0int,
{
    let ghost start = out@;
    let ghost av = exprs_view(args@);
    proof {
        lemma_exprs_view_index(args@);
    }
    let mut i: usize = 0;
    while i < args.len()
        invariant
            i <= args.len(),
            av == exprs_view(args@),
            av.len() == args.len(),
            forall|k: int| 0 <= k < args.len() ==> #[trigger] av[k] == args@[k]@,
            out@ + spec_emit_args_from(av, i as int) == start + spec_emit_args_from(av, 0),
        decreases args.len() - i,
    {
        let ghost before = out@;
        if i > 0 {
            push_str(out, ", ");
        }
        proof {
            assert(decreases_to!(args => args@[i as int]));
        }
        emit_expr(out, &args[i]);
        proof {
            reveal_strlit(", ");
            let sep = if i > 0 {
                ", "@
            } else {
                Seq::<char>::empty()
            };
            assert(out@ =~= before + sep + spec_emit_expr(av[i as int]));
            assert(before + spec_emit_args_from(av, i as int) =~= out@ + spec_emit_args_from(
                av,
                i + 1,
            ));
        }
        i = i + 1;
    }
    assert(out@ =~= start + spec_emit_args_from(av, 0));
}

/// Appends the C++ text of an expression.
#[verifier::spinoff_prover]
pub fn emit_expr(out: &mut Vec<char>, expr: &Expr)
    ensures
        final(out)@ == old(out)@ + spec_emit_expr(expr@),
    decreases expr, 1int,
{
    let ghost start = out@;
    match expr {
        Expr::Number(n) => {
            push_i64_decimal(out, *n);
        },
        Expr::Float(f) => {
            push_string(out, f);
        },
        Expr::BoolLiteral(b) => {
            if *b {
                push_str(out, "true");
            } else {
                push_str(out, "false");
            }
        },
        Expr::StringLiteral(s) => {
            out.push('"');
            push_escaped_string(out, s);
            out.push('"');
            assert(out@ =~= start + spec_emit_expr(expr@));
        },
        Expr::CharLiteral(c) => {
            out.push('\'');
            push_escaped_char(out, *c);
            out.push('\'');
            assert(out@ =~= start + spec_emit_expr(expr@));
        },
        Expr::Var(name) => {
            push_string(out, name);
        },
        Expr::Call { name, args } => {
            push_string(out, name);
            push_str(out, "(");
            emit_args(out, args);
            push_str(out, ")");
            assert(out@ =~= start + spec_emit_expr(expr@));
        },
        Expr::Paren(inner) => {
            push_str(out, "(");
            emit_expr(out, inner);
            push_str(out, ")");
            assert(out@ =~= start + spec_emit_expr(expr@));
        },
        Expr::Unary { op, expr: inner } => {
            match op {
                UnaryOp::PostInc => {
                    emit_expr(out, inner);
                    push_str(out, "++");
                },
                UnaryOp::PostDec => {
                    emit_expr(out, inner);
                    push_str(out, "--");
                },
                UnaryOp::Neg => {
                    push_str(out, "-");
                    emit_expr(out, inner);
                },
                UnaryOp::Not => {
                    push_str(out, "!");
                    emit_expr(out, inner);
                },
                UnaryOp::PreInc => {
                    push_str(out, "++");
                    emit_expr(out, inner);
                },
                UnaryOp::PreDec => {
                    push_str(out, "--");
                    emit_expr(out, inner);
                },
            }
            assert(out@ =~= start + spec_emit_expr(expr@));
        },
        Expr::Ternary { cond, then_expr, else_expr } => {
            push_str(out, "(");
            emit_expr(out, cond);
            push_str(out, " ? ");
            emit_expr(out, then_expr);
            push_str(out, " : ");
            emit_expr(out, else_expr);
            push_str(out, ")");
            assert(out@ =~= start + spec_emit_expr(expr@));
        },
        Expr::Binary { op, left, right } => {
            emit_expr(out, left);
            push_str(out, binop_str(*op));
            emit_expr(out, right);
            assert(out@ =~= start + spec_emit_expr(expr@));
        },
    }
}

/// Appends the declaration part of a variable declaration.
fn emit_decl_head(out: &mut Vec<char>, explicit_type: Option<TypeName>, name: &String)
    ensures
        final(out)@ == old(out)@ + spec_decl_head(explicit_type, name@),
{
    let ghost start = out@;
    match explicit_type {
        Some(t) => {
            push_str(out, cpp_type(t));
            push_str(out, " ");
        },
        None => {
            push_str(out, "auto ");
        },
    }
    push_string(out, name);
    push_str(out, " = ");
    assert(out@ =~= start + spec_decl_head(explicit_type, name@));
}

/// Appends an expression statement; a call of `print` becomes a write to standard output.
#[verifier::spinoff_prover]
fn emit_expr_stmt(out: &mut Vec<char>, expr: &Expr, level: usize)
    ensures
        final(out)@ == old(out)@ + spec_emit_expr_stmt(expr@, level),
{
    let ghost start = out@;
    if let Expr::Call { name, args } = expr {
        if string_is(name, "print") {
            let ghost av = exprs_view(args@);
            proof {
                lemma_exprs_view_index(args@);
            }
            indent(out, level);
            push_str(out, "std::cout");
            let ghost mid = out@;
            if args.len() > 0 {
                push_str(out, " << ");
                emit_expr(out, &args[0]);
                let mut i: usize = 1;
                while i < args.len()
                    invariant
                        1 <= i <= args.len(),
                        av == exprs_view(args@),
                        av.len() == args.len(),
                        forall|k: int| 0 <= k < args.len() ==> #[trigger] av[k] == args@[k]@,
                        out@ + spec_print_rest_from(av, i as int) == mid + " << "@ + spec_emit_expr(
                            av[0],
                        ) + spec_print_rest_from(av, 1),
                    decreases args.len() - i,
                {
                    let ghost before = out@;
                    push_str(out, " << \" \" << ");
                    emit_expr(out, &args[i]);
                    assert(before + spec_print_rest_from(av, i as int) =~= out@ + spec_print_rest_from(
                        av,
                        i + 1,
                    ));
                    i = i + 1;
                }
            }
            push_str(out, " << std::endl;\n");
            assert(out@ =~= start + spec_emit_expr_stmt(expr@, level));
            return;
        }
    }
    indent(out, level);
    emit_expr(out, expr);
    push_str(out, ";\n");
    assert(out@ =~= start + spec_emit_expr_stmt(expr@, level));
}

/// Appends the statements one after the other.
#[verifier::spinoff_prover]
fn emit_stmts(out: &mut Vec<char>, stmts: &Vec<Stmt>, level: usize)
    ensures
        final(out)@ == old(out)@ + spec_emit_stmts_from(stmts_view(stmts@), 0, level),
    decreases stmts, 0int,
{
    let ghost start = out@;
    let ghost sv = stmts_view(stmts@);
    proof {
        lemma_stmts_view_index(stmts@);
    }
    let mut i: usize = 0;
    while i < stmts.len()
        invariant
            i <= stmts.len(),
            sv == stmts_view(stmts@),
            sv.len() == stmts.len(),
            forall|k: int| 0 <= k < stmts.len() ==> #[trigger] sv[k] == stmts@[k]@,
            out@ + spec_emit_stmts_from(sv, i as int, level) == start + spec_emit_stmts_from(sv, 0, level),
        decreases stmts.len() - i,
    {
        let ghost before = out@;
        proof {
            assert(decreases_to!(stmts => stmts@[i as int]));
        }
        emit_stmt(out, &stmts[i], level);
        assert(before + spec_emit_stmts_from(sv, i as int, level) =~= out@ + spec_emit_stmts_from(
            sv,
            i + 1,
            level,
        ));
        i = i + 1;
    }
    assert(out@ =~= start + spec_emit_stmts_from(sv, 0, level));
}

/// Appends the cases of a switch: each label at `level`, its statements one level deeper.
#[verifier::spinoff_prover]
fn emit_cases(out: &mut Vec<char>, cases: &Vec<(Option<Expr>, Vec<Stmt>)>, level: usize)
    ensures
        final(out)@ == old(out)@ + spec_emit_cases_from(cases_view(cases@), 0, level),
    decreases cases, 0int,
{
    let ghost start = out@;
    let ghost cv = cases_view(cases@);
    proof {
        lemma_cases_view_index(cases@);
    }
    let inner = deeper(level);
    let mut i: usize = 0;
    while i < cases.len()
        invariant
            i <= cases.len(),
            inner == spec_deeper(level),
            cv == cases_view(cases@),
            cv.len() == cases.len(),
            forall|k: int|
                0 <= k < cases.len() ==> #[trigger] cv[k] == (
                opt_expr_view(cases@[k].0),
                stmts_view(cases@[k].1@),
            ),
            out@ + spec_emit_cases_from(cv, i as int, level) == start + spec_emit_cases_from(cv, 0, level),
        decreases cases.len() - i,
    {
        let ghost before = out@;
        proof {
            assert(decreases_to!(cases => cases@[i as int]));
        }
        let case = &cases[i];
        indent(out, level);
        match &case.0 {
            Some(v) => {
                proof {
                    assert(decreases_to!(cases => v));
                }
                push_str(out, "case ");
                emit_expr(out, v);
                push_str(out, ":\n");
            },
            None => {
                push_str(out, "default:\n");
            },
        }
        proof {
            assert(decreases_to!(cases => case.1));
        }
        emit_stmts(out, &case.1, inner);
        assert(before + spec_emit_cases_from(cv, i as int, level) =~= out@ + spec_emit_cases_from(
            cv,
            i + 1,
            level,
        ));
        i = i + 1;
    }
    assert(out@ =~= start + spec_emit_cases_from(cv, 0, level));
}

/// Appends the first clause of a `for` header.
fn emit_for_init(out: &mut Vec<char>, s: &Stmt)
    ensures
        final(out)@ == old(out)@ + spec_for_init(s@),
{
    let ghost start = out@;
    match s {
        Stmt::VarDecl { explicit_type, name, init } => {
            emit_decl_head(out, *explicit_type, name);
            emit_expr(out, init);
        },
        Stmt::Assign { name, expr } => {
            push_string(out, name);
            push_str(out, " = ");
            emit_expr(out, expr);
        },
        _ => {},
    }
    assert(out@ =~= start + spec_for_init(s@));
}

/// Appends the last clause of a `for` header.
fn emit_for_step(out: &mut Vec<char>, s: &Stmt)
    ensures
        final(out)@ == old(out)@ + spec_for_step(s@),
{
    let ghost start = out@;
    match s {
        Stmt::Assign { name, expr } => {
            push_string(out, name);
            push_str(out, " = ");
            emit_expr(out, expr);
        },
        Stmt::ExprStmt(e) => {
            emit_expr(out, e);
        },
        _ => {},
    }
    assert(out@ =~= start + spec_for_step(s@));
}

/// Appends a statement that holds no statements.
#[verifier::spinoff_prover]
fn emit_simple_stmt(out: &mut Vec<char>, stmt: &Stmt, level: usize)
    requires
        !(stmt is If || stmt is While || stmt is DoWhile || stmt is For || stmt is Switch),
    ensures
        final(out)@ == old(out)@ + spec_emit_stmt(stmt@, level),
{
    let ghost start = out@;
    match stmt {
        Stmt::VarDecl { explicit_type, name, init } => {
            indent(out, level);
            emit_decl_head(out, *explicit_type, name);
            emit_expr(out, init);
            push_str(out, ";\n");
        },
        Stmt::Assign { name, expr } => {
            indent(out, level);
            push_string(out, name);
            push_str(out, " = ");
            emit_expr(out, expr);
            push_str(out, ";\n");
        },
        Stmt::Return(opt_expr) => {
            indent(out, level);
            match opt_expr {
                Some(e) => {
                    push_str(out, "return ");
                    emit_expr(out, e);
                    push_str(out, ";\n");
                },
                None => {
                    push_str(out, "return;\n");
                },
            }
        },
        Stmt::ExprStmt(e) => {
            emit_expr_stmt(out, e, level);
        },
        Stmt::Break => {
            indent(out, level);
            push_str(out, "break;\n");
        },
        Stmt::Continue => {
            indent(out, level);
            push_str(out, "continue;\n");
        },
        _ => {},
    }
    assert(out@ =~= start + spec_emit_stmt(stmt@, level));
}

/// Appends an `if` statement.
#[verifier::spinoff_prover]
fn emit_if(out: &mut Vec<char>, stmt: &Stmt, level: usize)
    requires
        stmt is If,
    ensures
        final(out)@ == old(out)@ + spec_emit_stmt(stmt@, level),
    decreases stmt, 0int,
{
    let ghost start = out@;
    let inner = deeper(level);
    if let Stmt::If { cond, then_body, else_body } = stmt {
        indent(out, level);
        push_str(out, "if (");
        emit_expr(out, cond);
        push_str(out, ") {\n");
        emit_stmts(out, then_body, inner);
        indent(out, level);
        push_str(out, "}\n");
        if else_body.len() > 0 {
            indent(out, level);
            push_str(out, "else {\n");
            emit_stmts(out, else_body, inner);
            indent(out, level);
            push_str(out, "}\n");
        }
        proof {
            lemma_stmts_view_index(else_body@);
        }
    }
    assert(out@ =~= start + spec_emit_stmt(stmt@, level));
}

/// Appends a `while` or `do`-`while` statement.
#[verifier::spinoff_prover]
fn emit_loop(out: &mut Vec<char>, stmt: &Stmt, level: usize)
    requires
        stmt is While || stmt is DoWhile,
    ensures
        final(out)@ == old(out)@ + spec_emit_stmt(stmt@, level),
    decreases stmt, 0int,
{
    let ghost start = out@;
    let inner = deeper(level);
    match stmt {
        Stmt::While { cond, body } => {
            indent(out, level);
            push_str(out, "while (");
            emit_expr(out, cond);
            push_str(out, ") {\n");
            emit_stmts(out, body, inner);
            indent(out, level);
            push_str(out, "}\n");
        },
        Stmt::DoWhile { body, cond } => {
            indent(out, level);
            push_str(out, "do {\n");
            emit_stmts(out, body, inner);
            indent(out, level);
            push_str(out, "} while (");
            emit_expr(out, cond);
            push_str(out, ");\n");
        },
        _ => {},
    }
    assert(out@ =~= start + spec_emit_stmt(stmt@, level));
}

/// Appends a `for` statement.
#[verifier::spinoff_prover]
fn emit_for(out: &mut Vec<char>, stmt: &Stmt, level: usize)
    requires
        stmt is For,
    ensures
        final(out)@ == old(out)@ + spec_emit_stmt(stmt@, level),
    decreases stmt, 0int,
{
    let ghost start = out@;
    let inner = deeper(level);
    if let Stmt::For { init, cond, step, body } = stmt {
        indent(out, level);
        push_str(out, "for (");
        emit_for_init(out, init);
        push_str(out, "; ");
        emit_expr(out, cond);
        push_str(out, "; ");
        emit_for_step(out, step);
        push_str(out, ") {\n");
        emit_stmts(out, body, inner);
        indent(out, level);
        push_str(out, "}\n");
    }
    assert(out@ =~= start + spec_emit_stmt(stmt@, level));
}

/// Appends a `switch` statement.
#[verifier::spinoff_prover]
fn emit_switch(out: &mut Vec<char>, stmt: &Stmt, level: usize)
    requires
        stmt is Switch,
    ensures
        final(out)@ == old(out)@ + spec_emit_stmt(stmt@, level),
    decreases stmt, 0int,
{
    let ghost start = out@;
    let inner = deeper(level);
    if let Stmt::Switch { expr, cases } = stmt {
        indent(out, level);
        push_str(out, "switch (");
        emit_expr(out, expr);
        push_str(out, ") {\n");
        emit_cases(out, cases, inner);
        indent(out, level);
        push_str(out, "}\n");
    }
    assert(out@ =~= start + spec_emit_stmt(stmt@, level));
}

/// Appends the C++ text of a statement at indentation `level`.
#[verifier::spinoff_prover]
pub fn emit_stmt(out: &mut Vec<char>, stmt: &Stmt, level: usize)
    ensures
        final(out)@ == old(out)@ + spec_emit_stmt(stmt@, level),
    decreases stmt, 1int,
{
    match stmt {
        Stmt::If { .. } => emit_if(out, stmt, level),
        Stmt::While { .. } | Stmt::DoWhile { .. } => emit_loop(out, stmt, level),
        Stmt::For { .. } => emit_for(out, stmt, level),
        Stmt::Switch { .. } => emit_switch(out, stmt, level),
        _ => emit_simple_stmt(out, stmt, level),
    }
}

/// The C++ text of a function.
pub fn emit_function(func: &FunctionDecl) -> (r: String)
    ensures
        r@ == spec_emit_function(func@),
{
    let mut out: Vec<char> = Vec::new();
    push_str(&mut out, cpp_type(func.return_type));
    push_str(&mut out, " ");
    if string_is(&func.name, "Main") {
        push_str(&mut out, "main");
    } else {
        push_string(&mut out, &func.name);
    }
    push_str(&mut out, "(");
    let ghost mid = out@;
    let ghost pv = params_view(func.params@);
    let mut i: usize = 0;
    while i < func.params.len()
        invariant
            i <= func.params.len(),
            pv == params_view(func.params@),
            out@ + spec_emit_params_from(pv, i as int) == mid + spec_emit_params_from(pv, 0),
        decreases func.params.len() - i,
    {
        let ghost before = out@;
        if i > 0 {
            push_str(&mut out, ", ");
        }
        let p: &Param = &func.params[i];
        push_str(&mut out, cpp_type(p.ty));
        push_str(&mut out, " ");
        push_string(&mut out, &p.name);
        proof {
            reveal_strlit(", ");
            let sep = if i > 0 {
                ", "@
            } else {
                Seq::<char>::empty()
            };
            assert(out@ =~= before + sep + spec_cpp_type(pv[i as int].ty) + " "@ + pv[i as int].name);
            assert(before + spec_emit_params_from(pv, i as int) =~= out@ + spec_emit_params_from(
                pv,
                i + 1,
            ));
        }
        i = i + 1;
    }
    push_str(&mut out, ") {\n");
    emit_stmts(&mut out, &func.body, 1);
    push_str(&mut out, "}\n");
    assert(out@ =~= spec_emit_function(func@));
    string_of(&out)
}

/// The C++ text of each function, computed in parallel by rayon (`par_iter`, `map`,
/// `collect`). The contract claims that the collected vector holds one text per function, in
/// the order of the functions: rayon's `collect` into a `Vec` from an indexed parallel
/// iterator writes each item at its index. Each text is what `emit_function` gives.
#[verifier::external_body]
fn emit_functions_in_parallel(funcs: &Vec<FunctionDecl>) -> (r: Vec<String>)
    ensures
        r.len() == funcs.len(),
        forall|i: int| 0 <= i < funcs.len() ==> #[trigger] r@[i]@ == spec_emit_function(funcs@[i]@),
{
    funcs.par_iter().map(|f| emit_function(f)).collect()
}

/// The C++ program for a program: a fixed header, then the text of each function followed
/// by an empty line. The texts of the functions are computed in parallel.
pub fn generate_cpp(program: &Program) -> (r: String)
    ensures
        r@ == spec_generate_cpp(program@),
{
    let mut out: Vec<char> = Vec::new();
    push_str(&mut out, "// Snek++ → C++\n");
    push_str(&mut out, "#include <iostream>\n");
    push_str(&mut out, "#include <string>\n");
    push_str(&mut out, "\n");
    proof {
        reveal_strlit("// Snek++ → C++\n");
        reveal_strlit("#include <iostream>\n");
        reveal_strlit("#include <string>\n");
        reveal_strlit("\n");
        reveal_strlit("// Snek++ → C++\n#include <iostream>\n#include <string>\n\n");
    }
    assert(out@ =~= spec_cpp_header());
    let texts = emit_functions_in_parallel(&program.functions);
    let ghost parts = program@.map_values(|f: SpecFunction| spec_emit_function(f));
    let mut i: usize = 0;
    while i < texts.len()
        invariant
            i <= texts.len(),
            texts.len() == program.functions.len(),
            parts.len() == texts.len(),
            forall|k: int| 0 <= k < texts.len() ==> #[trigger] texts@[k]@ == parts[k],
            out@ + spec_lines_from(parts, i as int) == spec_cpp_header() + spec_lines_from(parts, 0),
        decreases texts.len() - i,
    {
        let ghost before = out@;
        push_string(&mut out, &texts[i]);
        out.push('\n');
        proof {
            reveal_strlit("\n");
        }
        assert(before + spec_lines_from(parts, i as int) =~= out@ + spec_lines_from(parts, i + 1));
        i = i + 1;
    }
    assert(out@ =~= spec_generate_cpp(program@));
    string_of(&out)
}

} // verus!
