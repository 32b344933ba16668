use vstd::prelude::*;
use crate::ast::{
    BinOp, SpecExpr, SpecFunction, SpecParam, SpecStmt, TypeName, UnaryOp, spec_format_type,
};
use crate::ast::{SpecToken, SpecTokenKind};
use crate::error::SpecCompileError;
use crate::lexer::{
    LexState, LexStep, bump_state, lex_from, lex_step, spec_lex_char, spec_lex_string, spec_tokenize,
    string_scan, token_at, unescape,
};
use crate::text::{digit_char, spec_int_decimal, spec_nat_decimal};
use crate::grammar::{
    add_sub_op, and_op, comparison_op, equality_op, mul_div_op, or_op, postfix_op, prefix_op,
};

verus! {

// The model of the C++ that is generated for a program.

pub open spec fn spec_cpp_type(ty: TypeName) -> Seq<char> {
    match ty {
        TypeName::Int => "int"@,
        TypeName::Bool => "bool"@,
        TypeName::Void => "void"@,
        TypeName::String => "std::string"@,
        TypeName::Float => "float"@,
        TypeName::Double => "double"@,
        TypeName::Char => "char"@,
    }
}

/// A character of a string literal as C++ source writes it.
pub open spec fn spec_escape_in_string(c: char) -> Seq<char> {
    if c == '\\' {
        seq!['\\', '\\']
    } else if c == '"' {
        seq!['\\', '"']
    } else if c == '\n' {
        seq!['\\', 'n']
    } else if c == '\r' {
        seq!['\\', 'r']
    } else if c == '\t' {
        seq!['\\', 't']
    } else {
        seq![c]
    }
}

/// A character literal's character as C++ source writes it.
pub open spec fn spec_escape_in_char(c: char) -> Seq<char> {
    if c == '\\' {
        seq!['\\', '\\']
    } else if c == '\'' {
        seq!['\\', '\'']
    } else if c == '\n' {
        seq!['\\', 'n']
    } else if c == '\r' {
        seq!['\\', 'r']
    } else if c == '\t' {
        seq!['\\', 't']
    } else {
        seq![c]
    }
}

/// The characters of `s`, each escaped for a string literal.
pub open spec fn spec_escape_string(s: Seq<char>) -> Seq<char>
    decreases s.len(),
{
    if s.len() == 0 {
        Seq::empty()
    } else {
        spec_escape_string(s.drop_last()) + spec_escape_in_string(s.last())
    }
}

pub open spec fn spec_binop_str(op: BinOp) -> Seq<char> {
    match op {
        BinOp::Add => " + "@,
        BinOp::Sub => " - "@,
        BinOp::Mul => " * "@,
        BinOp::Div => " / "@,
        BinOp::Mod => " % "@,
        BinOp::Less => " < "@,
        BinOp::Greater => " > "@,
        BinOp::LessEqual => " <= "@,
        BinOp::GreaterEqual => " >= "@,
        BinOp::Equal => " == "@,
        BinOp::NotEqual => " != "@,
        BinOp::And => " && "@,
        BinOp::Or => " || "@,
    }
}

pub open spec fn spec_prefix_op_str(op: UnaryOp) -> Seq<char> {
    match op {
        UnaryOp::Neg => "-"@,
        UnaryOp::Not => "!"@,
        UnaryOp::PreInc => "++"@,
        UnaryOp::PreDec => "--"@,
        _ => Seq::empty(),
    }
}

/// The C++ text of an expression.
pub open spec fn spec_emit_expr(e: SpecExpr) -> Seq<char>
    decreases e, 0int,
{
    match e {
        SpecExpr::Number(n) => spec_int_decimal(n as int),
        SpecExpr::Float(f) => f,
        SpecExpr::BoolLiteral(b) => if b {
            "true"@
        } else {
            "false"@
        },
        SpecExpr::StringLiteral(s) => seq!['"'] + spec_escape_string(s) + seq!['"'],
        SpecExpr::CharLiteral(c) => seq!['\''] + spec_escape_in_char(c) + seq!['\''],
        SpecExpr::Var(name) => name,
        SpecExpr::Call { name, args } => name + "("@ + spec_emit_args_from(args, 0) + ")"@,
        SpecExpr::Paren(inner) => "("@ + spec_emit_expr(*inner) + ")"@,
        SpecExpr::Unary { op, expr } => match op {
            UnaryOp::PostInc => spec_emit_expr(*expr) + "++"@,
            UnaryOp::PostDec => spec_emit_expr(*expr) + "--"@,
            _ => spec_prefix_op_str(op) + spec_emit_expr(*expr),
        },
        SpecExpr::Ternary { cond, then_expr, else_expr } => "("@ + spec_emit_expr(*cond) + " ? "@
            + spec_emit_expr(*then_expr) + " : "@ + spec_emit_expr(*else_expr) + ")"@,
        SpecExpr::Binary { op, left, right } => spec_emit_expr(*left) + spec_binop_str(op)
            + spec_emit_expr(*right),
    }
}

/// The arguments `args[i..]` of a call, separated by commas.
pub open spec fn spec_emit_args_from(args: Seq<SpecExpr>, i: int) -> Seq<char>
    decreases args, args.len() - i,
{
    if i < 0 || i >= args.len() {
        Seq::empty()
    } else {
        (if i > 0 {
            ", "@
        } else {
            Seq::empty()
        }) + spec_emit_expr(args[i]) + spec_emit_args_from(args, i + 1)
    }
}

/// The arguments `args[i..]` of a print after the first, each after a separating space.
pub open spec fn spec_print_rest_from(args: Seq<SpecExpr>, i: int) -> Seq<char>
    decreases args.len() - i,
{
    if i < 1 || i >= args.len() {
        Seq::empty()
    } else {
        " << \" \" << "@ + spec_emit_expr(args[i]) + spec_print_rest_from(args, i + 1)
    }
}

/// Four spaces for each level.
pub open spec fn spec_indent(level: nat) -> Seq<char>
    decreases level,
{
    if level == 0 {
        Seq::empty()
    } else {
        spec_indent((level - 1) as nat) + "    "@
    }
}

/// The level below `level` (usize arithmetic, which wraps).
pub open spec fn spec_deeper(level: usize) -> usize {
    if level == usize::MAX {
        0
    } else {
        (level + 1) as usize
    }
}

/// The declaration part of a variable declaration, without indentation or semicolon.
pub open spec fn spec_decl_head(explicit_type: Option<TypeName>, name: Seq<char>) -> Seq<char> {
    match explicit_type {
        Some(t) => spec_cpp_type(t) + " "@ + name + " = "@,
        None => "auto "@ + name + " = "@,
    }
}

/// The first clause of a `for` header.
pub open spec fn spec_for_init(s: SpecStmt) -> Seq<char> {
    match s {
        SpecStmt::VarDecl { explicit_type, name, init } => spec_decl_head(explicit_type, name)
            + spec_emit_expr(init),
        SpecStmt::Assign { name, expr } => name + " = "@ + spec_emit_expr(expr),
        _ => Seq::empty(),
    }
}

/// The last clause of a `for` header.
pub open spec fn spec_for_step(s: SpecStmt) -> Seq<char> {
    match s {
        SpecStmt::Assign { name, expr } => name + " = "@ + spec_emit_expr(expr),
        SpecStmt::ExprStmt(e) => spec_emit_expr(e),
        _ => Seq::empty(),
    }
}

/// An expression statement: a call of `print` becomes a write to standard output.
pub open spec fn spec_emit_expr_stmt(e: SpecExpr, level: usize) -> Seq<char> {
    match e {
        SpecExpr::Call { name, args } => if name == "print"@ {
            spec_indent(level as nat) + "std::cout"@ + (if args.len() > 0 {
                " << "@ + spec_emit_expr(args[0]) + spec_print_rest_from(args, 1)
            } else {
                Seq::empty()
            }) + " << std::endl;\n"@
        } else {
            spec_indent(level as nat) + spec_emit_expr(e) + ";\n"@
        },
        _ => spec_indent(level as nat) + spec_emit_expr(e) + ";\n"@,
    }
}

/// The C++ text of a statement at indentation `level`.
pub open spec fn spec_emit_stmt(s: SpecStmt, level: usize) -> Seq<char>
    decreases s, 0int,
{
    let ind = spec_indent(level as nat);
    let inner = spec_deeper(level);
    match s {
        SpecStmt::VarDecl { explicit_type, name, init } => ind + spec_decl_head(explicit_type, name)
            + spec_emit_expr(init) + ";\n"@,
        SpecStmt::Assign { name, expr } => ind + name + " = "@ + spec_emit_expr(expr) + ";\n"@,
        SpecStmt::Return(o) => match o {
            Some(e) => ind + "return "@ + spec_emit_expr(e) + ";\n"@,
            None => ind + "return;\n"@,
        },
        SpecStmt::ExprStmt(e) => spec_emit_expr_stmt(e, level),
        SpecStmt::If { cond, then_body, else_body } => ind + "if ("@ + spec_emit_expr(cond)
            + ") {\n"@ + spec_emit_stmts_from(then_body, 0, inner) + ind + "}\n"@ + (if else_body.len()
            > 0 {
            ind + "else {\n"@ + spec_emit_stmts_from(else_body, 0, inner) + ind + "}\n"@
        } else {
            Seq::empty()
        }),
        SpecStmt::While { cond, body } => ind + "while ("@ + spec_emit_expr(cond) + ") {\n"@
            + spec_emit_stmts_from(body, 0, inner) + ind + "}\n"@,
        SpecStmt::DoWhile { body, cond } => ind + "do {\n"@ + spec_emit_stmts_from(body, 0, inner)
            + ind + "} while ("@ + spec_emit_expr(cond) + ");\n"@,
        SpecStmt::For { init, cond, step, body } => ind + "for ("@ + spec_for_init(*init) + "; "@
            + spec_emit_expr(cond) + "; "@ + spec_for_step(*step) + ") {\n"@ + spec_emit_stmts_from(
            body,
            0,
            inner,
        ) + ind + "}\n"@,
        SpecStmt::Switch { expr, cases } => ind + "switch ("@ + spec_emit_expr(expr) + ") {\n"@
            + spec_emit_cases_from(cases, 0, inner) + ind + "}\n"@,
        SpecStmt::Break => ind + "break;\n"@,
        SpecStmt::Continue => ind + "continue;\n"@,
        SpecStmt::Empty => Seq::empty(),
    }
}

/// The statements `ss[i..]`, one after the other.
pub open spec fn spec_emit_stmts_from(ss: Seq<SpecStmt>, i: int, level: usize) -> Seq<char>
    decreases ss, ss.len() - i,
{
    if i < 0 || i >= ss.len() {
        Seq::empty()
    } else {
        spec_emit_stmt(ss[i], level) + spec_emit_stmts_from(ss, i + 1, level)
    }
}

/// The cases `cases[i..]` of a switch: each label at `level`, its statements one deeper.
pub open spec fn spec_emit_cases_from(
    cases: Seq<(Option<SpecExpr>, Seq<SpecStmt>)>,
    i: int,
    level: usize,
) -> Seq<char>
    decreases cases, cases.len() - i,
{
    if i < 0 || i >= cases.len() {
        Seq::empty()
    } else {
        spec_indent(level as nat) + (match cases[i].0 {
            Some(v) => "case "@ + spec_emit_expr(v) + ":\n"@,
            None => "default:\n"@,
        }) + spec_emit_stmts_from(cases[i].1, 0, spec_deeper(level)) + spec_emit_cases_from(
            cases,
            i + 1,
            level,
        )
    }
}

/// The parameters `ps[i..]` of a function, separated by commas.
pub open spec fn spec_emit_params_from(ps: Seq<SpecParam>, i: int) -> Seq<char>
    decreases ps.len() - i,
{
    if i < 0 || i >= ps.len() {
        Seq::empty()
    } else {
        (if i > 0 {
            ", "@
        } else {
            Seq::empty()
        }) + spec_cpp_type(ps[i].ty) + " "@ + ps[i].name + spec_emit_params_from(ps, i + 1)
    }
}

/// The C++ name of a function: `Main` becomes `main`.
pub open spec fn spec_cpp_name(name: Seq<char>) -> Seq<char> {
    if name == "Main"@ {
        "main"@
    } else {
        name
    }
}

/// The C++ text of a function.
pub open spec fn spec_emit_function(f: SpecFunction) -> Seq<char> {
    spec_cpp_type(f.return_type) + " "@ + spec_cpp_name(f.name) + "("@ + spec_emit_params_from(
        f.params,
        0,
    ) + ") {\n"@ + spec_emit_stmts_from(f.body, 0, 1) + "}\n"@
}

/// The first lines of every generated file.
pub open spec fn spec_cpp_header() -> Seq<char> {
    "// Snek++ → C++\n#include <iostream>\n#include <string>\n\n"@
}

/// The texts `parts[i..]`, each followed by a line break.
pub open spec fn spec_lines_from(parts: Seq<Seq<char>>, i: int) -> Seq<char>
    decreases parts.len() - i,
{
    if i < 0 || i >= parts.len() {
        Seq::empty()
    } else {
        parts[i] + "\n"@ + spec_lines_from(parts, i + 1)
    }
}

/// The C++ program generated for the functions `fs`: the header, then each function.
pub open spec fn spec_generate_cpp(fs: Seq<SpecFunction>) -> Seq<char> {
    spec_cpp_header() + spec_lines_from(fs.map_values(|f: SpecFunction| spec_emit_function(f)), 0)
}

// ---------------------------------------------------------------------------
// Laws.

/// The C++ name of a type (what `cpp_type` returns) is its source spelling (`format_type`), but
/// for `string`.
pub proof fn lemma_cpp_type_is_source_type(t: TypeName)
    ensures
        spec_cpp_type(t) == if t == TypeName::String {
            "std::string"@
        } else {
            spec_format_type(t)
        },
{
}

/// The text of a statement is empty exactly for the empty statement; any other statement's
/// text starts with the indentation of its level and ends with a line break.
pub proof fn lemma_stmt_text_is_indented_lines(s: SpecStmt, level: usize)
    ensures
        (spec_emit_stmt(s, level).len() == 0) == (s is Empty),
        !(s is Empty) ==> {
            &&& spec_emit_stmt(s, level).take(spec_indent(level as nat).len() as int) == spec_indent(
                level as nat,
            )
            &&& spec_emit_stmt(s, level).last() == '\n'
        },
{
    reveal_strlit(";\n");
    reveal_strlit("}\n");
    reveal_strlit("return;\n");
    reveal_strlit(");\n");
    reveal_strlit("break;\n");
    reveal_strlit("continue;\n");
    reveal_strlit(" << std::endl;\n");
    let ind = spec_indent(level as nat);
    let t = spec_emit_stmt(s, level);
    if !(s is Empty) {
        let rest = t.skip(ind.len() as int);
        assert(t =~= ind + rest);
        assert(t.take(ind.len() as int) =~= ind);
        assert(rest.len() > 0);
    }
}


proof fn lemma_escape_front(u: Seq<char>)
    requires
        u.len() > 0,
    ensures
        spec_escape_string(u) == spec_escape_in_string(u[0]) + spec_escape_string(u.skip(1)),
    decreases u.len(),
{
    if u.len() == 1 {
        assert(u.drop_last() =~= Seq::<char>::empty());
        assert(u.skip(1) =~= Seq::<char>::empty());
        assert(spec_escape_string(u.drop_last()) == Seq::<char>::empty());
        assert(u.last() == u[0]);
        assert(spec_escape_string(u) =~= spec_escape_in_string(u[0]));
    } else {
        let d = u.drop_last();
        lemma_escape_front(d);
        assert(d.skip(1) =~= u.skip(1).drop_last());
        assert(u.skip(1).last() == u.last());
        assert(spec_escape_string(u) =~= spec_escape_in_string(u[0]) + spec_escape_string(u.skip(1)));
    }
}

/// Where the input holds the escaped text of `u` followed by a double quote, the lexer's scan
/// of a string literal reads `u` back and stops after that quote.
proof fn lemma_scan_escaped(cs: Seq<char>, st: LexState, acc: Seq<char>, u: Seq<char>)
    requires
        0 <= st.pos,
        st.pos + spec_escape_string(u).len() < cs.len(),
        cs.subrange(st.pos, st.pos + spec_escape_string(u).len()) == spec_escape_string(u),
        cs[st.pos + spec_escape_string(u).len()] == '"',
    ensures
        string_scan(cs, st, acc).0 == Some(acc + u),
        string_scan(cs, st, acc).1.pos == st.pos + spec_escape_string(u).len() + 1,
    decreases u.len(),
{
    let e = spec_escape_string(u);
    if u.len() == 0 {
        assert(acc + u =~= acc);
    } else {
        lemma_escape_front(u);
        let c0 = u[0];
        let e0 = spec_escape_in_string(c0);
        let rest = u.skip(1);
        let er = spec_escape_string(rest);
        assert(e =~= e0 + er);
        assert(cs[st.pos] == e[0]);
        let s1 = bump_state(cs, st);
        if e0.len() == 2 {
            assert(cs[st.pos + 1] == e[1]);
            let s2 = bump_state(cs, s1);
            assert(unescape(cs[s1.pos]) == c0);
            assert(cs.subrange(s2.pos, s2.pos + er.len()) =~= er) by {
                assert forall|j: int| 0 <= j < er.len() implies cs.subrange(s2.pos, s2.pos
                    + er.len())[j] == er[j] by {
                    assert(cs[st.pos + 2 + j] == e[2 + j]);
                }
            }
            lemma_scan_escaped(cs, s2, acc.push(c0), rest);
            assert(acc.push(c0) + rest =~= acc + u);
        } else {
            assert(cs.subrange(s1.pos, s1.pos + er.len()) =~= er) by {
                assert forall|j: int| 0 <= j < er.len() implies cs.subrange(s1.pos, s1.pos
                    + er.len())[j] == er[j] by {
                    assert(cs[st.pos + 1 + j] == e[1 + j]);
                }
            }
            lemma_scan_escaped(cs, s1, acc.push(c0), rest);
            assert(acc.push(c0) + rest =~= acc + u);
        }
    }
}

/// The lexer reads the C++ text of a string literal (what `emit_expr` appends for it) back as
/// that string: one string token at line 1, column 1, then the end of input.
pub proof fn lemma_lexer_reads_string_literal_back(s: Seq<char>)
    ensures
        spec_tokenize(spec_emit_expr(SpecExpr::StringLiteral(s))) matches Ok(ts) && ts.len() == 2
            && ts[0].kind == SpecTokenKind::StringLit(s) && ts[0].line == 1 && ts[0].column == 1
            && ts[1].kind == SpecTokenKind::EOF,
{
    let e = spec_escape_string(s);
    let cs = spec_emit_expr(SpecExpr::StringLiteral(s));
    assert(cs == seq!['"'] + e + seq!['"']);
    let st0 = LexState { pos: 0, line: 1, column: 1 };
    let s1 = bump_state(cs, st0);
    assert(cs.subrange(1, 1 + e.len() as int) =~= e);
    lemma_scan_escaped(cs, s1, Seq::empty(), s);
    assert(Seq::<char>::empty() + s =~= s);
    let s2 = string_scan(cs, s1, Seq::empty()).1;
    assert(spec_lex_string(cs, st0) == Ok::<(SpecTokenKind, LexState), SpecCompileError>(
        (SpecTokenKind::StringLit(s), s2),
    ));
    assert(lex_step(cs, st0) == LexStep::Emit(SpecTokenKind::StringLit(s), s2));
    assert(lex_from(cs, s2) == Ok::<Seq<SpecToken>, SpecCompileError>(
        seq![token_at(SpecTokenKind::EOF, s2)],
    ));
}


// ---------------------------------------------------------------------------
// Statement text as indented lines.

/// Text without a line break.
pub open spec fn flat(t: Seq<char>) -> bool {
    forall|j: int| 0 <= j < t.len() ==> #[trigger] t[j] != '\n'
}

/// The place `j` of `t` starts a line: it is the first place, or the one after a line break.
pub open spec fn line_start(t: Seq<char>, j: int) -> bool {
    &&& 0 <= j < t.len()
    &&& j == 0 || t[j - 1] == '\n'
}

/// Whole lines (or nothing), each beginning with `ind`.
pub open spec fn indented_block(t: Seq<char>, ind: Seq<char>) -> bool {
    &&& t.len() == 0 || t.last() == '\n'
    &&& forall|j: int| #[trigger] line_start(t, j) ==> j + ind.len() <= t.len() && t.subrange(
        j,
        j + ind.len(),
    ) == ind
}

proof fn lemma_flat_concat(a: Seq<char>, b: Seq<char>)
    requires
        flat(a),
        flat(b),
    ensures
        flat(a + b),
{
    assert forall|j: int| 0 <= j < (a + b).len() implies #[trigger] (a + b)[j] != '\n' by {
        if j < a.len() {
            assert((a + b)[j] == a[j]);
        } else {
            assert((a + b)[j] == b[j - a.len()]);
        }
    }
}

proof fn lemma_block_concat(a: Seq<char>, b: Seq<char>, ind: Seq<char>)
    requires
        indented_block(a, ind),
        indented_block(b, ind),
    ensures
        indented_block(a + b, ind),
{
    let t = a + b;
    if b.len() > 0 {
        assert(t.last() == b.last());
    } else {
        assert(t =~= a);
    }
    assert forall|j: int| #[trigger] line_start(t, j) implies j + ind.len() <= t.len()
        && t.subrange(j, j + ind.len()) == ind by {
        if j < a.len() {
            if j > 0 {
                assert(t[j - 1] == a[j - 1]);
            }
            assert(line_start(a, j));
            assert(t.subrange(j, j + ind.len()) =~= a.subrange(j, j + ind.len()));
        } else {
            let k = j - a.len();
            if k > 0 {
                assert(t[j - 1] == b[k - 1]);
            } else if j > 0 {
                assert(t[j - 1] == a.last());
            }
            assert(line_start(b, k));
            assert(t.subrange(j, j + ind.len()) =~= b.subrange(k, k + ind.len()));
        }
    }
}

/// One line: `ind`, then text without a line break, then a line break.
proof fn lemma_block_line(ind: Seq<char>, x: Seq<char>)
    requires
        flat(ind),
        flat(x),
    ensures
        indented_block(ind + x + seq!['\n'], ind),
{
    let t = ind + x + seq!['\n'];
    lemma_flat_concat(ind, x);
    assert forall|j: int| #[trigger] line_start(t, j) implies j + ind.len() <= t.len()
        && t.subrange(j, j + ind.len()) == ind by {
        if j > 0 {
            assert(t[j - 1] == (ind + x)[j - 1]);
            assert(false);
        }
        assert(t.subrange(0, ind.len() as int) =~= ind);
    }
}

/// A block whose lines begin with `ind + more` has lines that begin with `ind`.
proof fn lemma_block_weaken(t: Seq<char>, ind: Seq<char>, more: Seq<char>)
    requires
        indented_block(t, ind + more),
    ensures
        indented_block(t, ind),
{
    assert forall|j: int| #[trigger] line_start(t, j) implies j + ind.len() <= t.len()
        && t.subrange(j, j + ind.len()) == ind by {
        assert(t.subrange(j, j + (ind + more).len()) == ind + more);
        assert(t.subrange(j, j + ind.len()) =~= t.subrange(j, j + (ind + more).len()).subrange(
            0,
            ind.len() as int,
        ));
        assert((ind + more).subrange(0, ind.len() as int) =~= ind);
    }
}

proof fn lemma_indent_flat(level: nat)
    ensures
        flat(spec_indent(level)),
    decreases level,
{
    reveal_strlit("    ");
    if level > 0 {
        lemma_indent_flat((level - 1) as nat);
        lemma_flat_concat(spec_indent((level - 1) as nat), "    "@);
    }
}

proof fn lemma_nat_decimal_flat(n: nat)
    ensures
        flat(spec_nat_decimal(n)),
    decreases n,
{
    if n >= 10 {
        lemma_nat_decimal_flat(n / 10);
        lemma_flat_concat(spec_nat_decimal(n / 10), seq![digit_char((n % 10) as int)]);
    }
}

proof fn lemma_escape_string_flat(s: Seq<char>)
    ensures
        flat(spec_escape_string(s)),
    decreases s.len(),
{
    if s.len() > 0 {
        lemma_escape_string_flat(s.drop_last());
        lemma_flat_concat(spec_escape_string(s.drop_last()), spec_escape_in_string(s.last()));
    }
}


/// No name and no number text in the expression holds a line break.
pub open spec fn expr_plain(e: SpecExpr) -> bool
    decreases e, 0int,
{
    match e {
        SpecExpr::Float(f) => flat(f),
        SpecExpr::Var(name) => flat(name),
        SpecExpr::Call { name, args } => flat(name) && args_plain(args, 0),
        SpecExpr::Paren(inner) => expr_plain(*inner),
        SpecExpr::Unary { op, expr } => expr_plain(*expr),
        SpecExpr::Ternary { cond, then_expr, else_expr } => expr_plain(*cond) && expr_plain(
            *then_expr,
        ) && expr_plain(*else_expr),
        SpecExpr::Binary { op, left, right } => expr_plain(*left) && expr_plain(*right),
        _ => true,
    }
}

/// The arguments `args[i..]` are plain expressions.
pub open spec fn args_plain(args: Seq<SpecExpr>, i: int) -> bool
    decreases args, args.len() - i,
{
    if i < 0 || i >= args.len() {
        true
    } else {
        expr_plain(args[i]) && args_plain(args, i + 1)
    }
}

proof fn lemma_binop_flat(op: BinOp)
    ensures
        flat(spec_binop_str(op)),
{
    reveal_strlit(" + ");
    reveal_strlit(" - ");
    reveal_strlit(" * ");
    reveal_strlit(" / ");
    reveal_strlit(" % ");
    reveal_strlit(" < ");
    reveal_strlit(" > ");
    reveal_strlit(" <= ");
    reveal_strlit(" >= ");
    reveal_strlit(" == ");
    reveal_strlit(" != ");
    reveal_strlit(" && ");
    reveal_strlit(" || ");
}

proof fn lemma_expr_flat(e: SpecExpr)
    requires
        expr_plain(e),
    ensures
        flat(spec_emit_expr(e)),
    decreases e, 0int,
{
    reveal_strlit("true");
    reveal_strlit("false");
    reveal_strlit("(");
    reveal_strlit(")");
    reveal_strlit("++");
    reveal_strlit("--");
    reveal_strlit("-");
    reveal_strlit("!");
    reveal_strlit(" ? ");
    reveal_strlit(" : ");
    let t = spec_emit_expr(e);
    match e {
        SpecExpr::Number(n) => {
            let v = n as int;
            if v < 0 {
                lemma_nat_decimal_flat((-v) as nat);
                lemma_flat_concat(seq!['-'], spec_nat_decimal((-v) as nat));
            } else {
                lemma_nat_decimal_flat(v as nat);
            }
        },
        SpecExpr::StringLiteral(s) => {
            lemma_escape_string_flat(s);
            lemma_flat_concat(seq!['"'], spec_escape_string(s));
            lemma_flat_concat(seq!['"'] + spec_escape_string(s), seq!['"']);
        },
        SpecExpr::CharLiteral(c) => {
            lemma_flat_concat(seq!['\''], spec_escape_in_char(c));
            lemma_flat_concat(seq!['\''] + spec_escape_in_char(c), seq!['\'']);
        },
        SpecExpr::Call { name, args } => {
            lemma_args_flat(args, 0);
            lemma_flat_concat(name, "("@);
            lemma_flat_concat(name + "("@, spec_emit_args_from(args, 0));
            lemma_flat_concat(name + "("@ + spec_emit_args_from(args, 0), ")"@);
        },
        SpecExpr::Paren(inner) => {
            lemma_expr_flat(*inner);
            lemma_flat_concat("("@, spec_emit_expr(*inner));
            lemma_flat_concat("("@ + spec_emit_expr(*inner), ")"@);
        },
        SpecExpr::Unary { op, expr } => {
            lemma_expr_flat(*expr);
            lemma_flat_concat(spec_emit_expr(*expr), "++"@);
            lemma_flat_concat(spec_emit_expr(*expr), "--"@);
            lemma_flat_concat(spec_prefix_op_str(op), spec_emit_expr(*expr));
        },
        SpecExpr::Ternary { cond, then_expr, else_expr } => {
            lemma_expr_flat(*cond);
            lemma_expr_flat(*then_expr);
            lemma_expr_flat(*else_expr);
            let a = "("@ + spec_emit_expr(*cond);
            lemma_flat_concat("("@, spec_emit_expr(*cond));
            lemma_flat_concat(a, " ? "@);
            lemma_flat_concat(a + " ? "@, spec_emit_expr(*then_expr));
            lemma_flat_concat(a + " ? "@ + spec_emit_expr(*then_expr), " : "@);
            lemma_flat_concat(a + " ? "@ + spec_emit_expr(*then_expr) + " : "@, spec_emit_expr(*else_expr));
            lemma_flat_concat(
                a + " ? "@ + spec_emit_expr(*then_expr) + " : "@ + spec_emit_expr(*else_expr),
                ")"@,
            );
        },
        SpecExpr::Binary { op, left, right } => {
            lemma_expr_flat(*left);
            lemma_expr_flat(*right);
            lemma_binop_flat(op);
            lemma_flat_concat(spec_emit_expr(*left), spec_binop_str(op));
            lemma_flat_concat(spec_emit_expr(*left) + spec_binop_str(op), spec_emit_expr(*right));
        },
        _ => {},
    }
}

proof fn lemma_args_flat(args: Seq<SpecExpr>, i: int)
    requires
        args_plain(args, i),
    ensures
        flat(spec_emit_args_from(args, i)),
    decreases args, args.len() - i,
{
    reveal_strlit(", ");
    if 0 <= i < args.len() {
        let sep = if i > 0 {
            ", "@
        } else {
            Seq::<char>::empty()
        };
        lemma_expr_flat(args[i]);
        lemma_args_flat(args, i + 1);
        lemma_flat_concat(sep, spec_emit_expr(args[i]));
        lemma_flat_concat(sep + spec_emit_expr(args[i]), spec_emit_args_from(args, i + 1));
    }
}


/// No name or number text in the statement holds a line break, and its bodies nest no deeper
/// than the largest level there is.
pub open spec fn stmt_plain(s: SpecStmt, level: usize) -> bool
    decreases s, 0int,
{
    match s {
        SpecStmt::VarDecl { explicit_type, name, init } => flat(name) && expr_plain(init),
        SpecStmt::Assign { name, expr } => flat(name) && expr_plain(expr),
        SpecStmt::Return(o) => match o {
            Some(e) => expr_plain(e),
            None => true,
        },
        SpecStmt::ExprStmt(e) => expr_plain(e),
        SpecStmt::If { cond, then_body, else_body } => expr_plain(cond) && level < usize::MAX
            && stmts_plain(then_body, 0, (level + 1) as usize) && stmts_plain(
            else_body,
            0,
            (level + 1) as usize,
        ),
        SpecStmt::While { cond, body } => expr_plain(cond) && level < usize::MAX && stmts_plain(
            body,
            0,
            (level + 1) as usize,
        ),
        SpecStmt::DoWhile { body, cond } => expr_plain(cond) && level < usize::MAX && stmts_plain(
            body,
            0,
            (level + 1) as usize,
        ),
        SpecStmt::For { init, cond, step, body } => stmt_plain(*init, level) && expr_plain(cond)
            && stmt_plain(*step, level) && level < usize::MAX && stmts_plain(
            body,
            0,
            (level + 1) as usize,
        ),
        SpecStmt::Switch { expr, cases } => expr_plain(expr) && level < usize::MAX && cases_plain(
            cases,
            0,
            (level + 1) as usize,
        ),
        _ => true,
    }
}

/// The statements `ss[i..]` are plain at `level`.
pub open spec fn stmts_plain(ss: Seq<SpecStmt>, i: int, level: usize) -> bool
    decreases ss, ss.len() - i,
{
    if i < 0 || i >= ss.len() {
        true
    } else {
        stmt_plain(ss[i], level) && stmts_plain(ss, i + 1, level)
    }
}

/// The cases `cases[i..]` are plain, with labels at `level`.
pub open spec fn cases_plain(cases: Seq<(Option<SpecExpr>, Seq<SpecStmt>)>, i: int, level: usize) -> bool
    decreases cases, cases.len() - i,
{
    if i < 0 || i >= cases.len() {
        true
    } else {
        &&& match cases[i].0 {
            Some(v) => expr_plain(v),
            None => true,
        }
        &&& level < usize::MAX
        &&& stmts_plain(cases[i].1, 0, (level + 1) as usize)
        &&& cases_plain(cases, i + 1, level)
    }
}

/// Text without a line break, followed by a literal whose one line break ends it, makes a
/// line.
proof fn lemma_flat_then_line(a: Seq<char>, lit: Seq<char>)
    requires
        flat(a),
        lit.len() > 0,
        lit.last() == '\n',
        flat(lit.drop_last()),
    ensures
        (a + lit).len() > 0,
        (a + lit).last() == '\n',
        flat((a + lit).drop_last()),
{
    assert((a + lit).drop_last() =~= a + lit.drop_last());
    lemma_flat_concat(a, lit.drop_last());
}

/// A line that begins with `ind` is a block of one line.
proof fn lemma_one_line(l: Seq<char>, ind: Seq<char>)
    requires
        ind.len() <= l.len(),
        l.subrange(0, ind.len() as int) == ind,
        l.len() > 0,
        l.last() == '\n',
        flat(l.drop_last()),
    ensures
        indented_block(l, ind),
{
    assert forall|j: int| #[trigger] line_start(l, j) implies j + ind.len() <= l.len()
        && l.subrange(j, j + ind.len()) == ind by {
        if j > 0 {
            assert(l[j - 1] == l.drop_last()[j - 1]);
        }
    }
}

/// `ind`, flat text `x`, then a literal `lit` ending in its only line break: a one-line block.
proof fn lemma_line_block(ind: Seq<char>, x: Seq<char>, lit: Seq<char>)
    requires
        flat(ind),
        flat(x),
        lit.len() > 0,
        lit.last() == '\n',
        flat(lit.drop_last()),
    ensures
        indented_block(ind + x + lit, ind),
{
    lemma_flat_concat(ind, x);
    lemma_flat_then_line(ind + x, lit);
    assert((ind + x + lit).subrange(0, ind.len() as int) =~= ind);
    lemma_one_line(ind + x + lit, ind);
}

proof fn lemma_flat3(a: Seq<char>, b: Seq<char>, c: Seq<char>)
    requires
        flat(a),
        flat(b),
        flat(c),
    ensures
        flat(a + b + c),
{
    lemma_flat_concat(a, b);
    lemma_flat_concat(a + b, c);
}

proof fn lemma_cpp_type_flat(t: TypeName)
    ensures
        flat(spec_cpp_type(t)),
{
    reveal_strlit("int");
    reveal_strlit("bool");
    reveal_strlit("void");
    reveal_strlit("std::string");
    reveal_strlit("float");
    reveal_strlit("double");
    reveal_strlit("char");
}

/// The text of a plain `for` clause holds no line break.
proof fn lemma_for_clauses_flat(s: SpecStmt, level: usize)
    requires
        stmt_plain(s, level),
    ensures
        flat(spec_for_init(s)),
        flat(spec_for_step(s)),
{
    reveal_strlit(" ");
    reveal_strlit(" = ");
    reveal_strlit("auto ");
    match s {
        SpecStmt::VarDecl { explicit_type, name, init } => {
            lemma_expr_flat(init);
            match explicit_type {
                Some(t) => {
                    lemma_cpp_type_flat(t);
                    lemma_flat3(spec_cpp_type(t), " "@, name);
                    lemma_flat_concat(spec_cpp_type(t) + " "@ + name, " = "@);
                },
                None => {
                    lemma_flat3("auto "@, name, " = "@);
                },
            }
            lemma_flat_concat(spec_decl_head(explicit_type, name), spec_emit_expr(init));
        },
        SpecStmt::Assign { name, expr } => {
            lemma_expr_flat(expr);
            lemma_flat3(name, " = "@, spec_emit_expr(expr));
        },
        SpecStmt::ExprStmt(e) => {
            lemma_expr_flat(e);
        },
        _ => {},
    }
}


proof fn lemma_print_rest_flat(args: Seq<SpecExpr>, i: int)
    requires
        args_plain(args, i),
    ensures
        flat(spec_print_rest_from(args, i)),
    decreases args.len() - i,
{
    reveal_strlit(" << \" \" << ");
    if 1 <= i < args.len() {
        lemma_expr_flat(args[i]);
        lemma_print_rest_flat(args, i + 1);
        lemma_flat3(" << \" \" << "@, spec_emit_expr(args[i]), spec_print_rest_from(args, i + 1));
    } else if 0 <= i < args.len() {
        lemma_print_rest_flat(args, i + 1);
    }
}

/// The statements of a body one level below `level`, as lines that begin with the indentation
/// of `level`.
proof fn lemma_body_block(ss: Seq<SpecStmt>, level: usize)
    requires
        level < usize::MAX,
        stmts_plain(ss, 0, (level + 1) as usize),
    ensures
        indented_block(spec_emit_stmts_from(ss, 0, spec_deeper(level)), spec_indent(level as nat)),
    decreases ss, ss.len() + 1,
{
    let inner = (level + 1) as usize;
    lemma_stmts_block(ss, 0, inner);
    assert(spec_indent(inner as nat) == spec_indent(level as nat) + "    "@);
    lemma_block_weaken(spec_emit_stmts_from(ss, 0, inner), spec_indent(level as nat), "    "@);
}

proof fn lemma_stmts_block(ss: Seq<SpecStmt>, i: int, level: usize)
    requires
        stmts_plain(ss, i, level),
    ensures
        indented_block(spec_emit_stmts_from(ss, i, level), spec_indent(level as nat)),
    decreases ss, ss.len() - i,
{
    if 0 <= i < ss.len() {
        lemma_stmt_block(ss[i], level);
        lemma_stmts_block(ss, i + 1, level);
        lemma_block_concat(
            spec_emit_stmt(ss[i], level),
            spec_emit_stmts_from(ss, i + 1, level),
            spec_indent(level as nat),
        );
    }
}

proof fn lemma_cases_block(
    cases: Seq<(Option<SpecExpr>, Seq<SpecStmt>)>,
    i: int,
    level: usize,
)
    requires
        cases_plain(cases, i, level),
    ensures
        indented_block(spec_emit_cases_from(cases, i, level), spec_indent(level as nat)),
    decreases cases, cases.len() - i,
{
    reveal_strlit("case ");
    reveal_strlit(":\n");
    reveal_strlit("default:\n");
    if 0 <= i < cases.len() {
        let ind = spec_indent(level as nat);
        lemma_indent_flat(level as nat);
        let body = spec_emit_stmts_from(cases[i].1, 0, spec_deeper(level));
        let rest = spec_emit_cases_from(cases, i + 1, level);
        lemma_body_block(cases[i].1, level);
        lemma_cases_block(cases, i + 1, level);
        let label = match cases[i].0 {
            Some(v) => "case "@ + spec_emit_expr(v) + ":\n"@,
            None => "default:\n"@,
        };
        match cases[i].0 {
            Some(v) => {
                lemma_expr_flat(v);
                lemma_flat_concat("case "@, spec_emit_expr(v));
                lemma_line_block(ind, "case "@ + spec_emit_expr(v), ":\n"@);
                assert(ind + label =~= ind + ("case "@ + spec_emit_expr(v)) + ":\n"@);
            },
            None => {
                lemma_line_block(ind, Seq::empty(), "default:\n"@);
                assert(ind + label =~= ind + Seq::<char>::empty() + "default:\n"@);
            },
        }
        lemma_block_concat(ind + label, body, ind);
        lemma_block_concat(ind + label + body, rest, ind);
        assert(spec_emit_cases_from(cases, i, level) =~= ind + label + body + rest);
    }
}

#[verifier::spinoff_prover]
#[verifier::rlimit(40)]
proof fn lemma_stmt_block(s: SpecStmt, level: usize)
    requires
        stmt_plain(s, level),
    ensures
        indented_block(spec_emit_stmt(s, level), spec_indent(level as nat)),
    decreases s, 0int,
{
    reveal_strlit(";\n");
    reveal_strlit("}\n");
    reveal_strlit("return ");
    reveal_strlit("return;\n");
    reveal_strlit("break;\n");
    reveal_strlit("continue;\n");
    reveal_strlit(" << std::endl;\n");
    reveal_strlit("std::cout");
    reveal_strlit(" << ");
    reveal_strlit("if (");
    reveal_strlit(") {\n");
    reveal_strlit("else {\n");
    reveal_strlit("while (");
    reveal_strlit("do {\n");
    reveal_strlit("} while (");
    reveal_strlit(");\n");
    reveal_strlit("for (");
    reveal_strlit("; ");
    reveal_strlit("switch (");
    let ind = spec_indent(level as nat);
    let t = spec_emit_stmt(s, level);
    let e0 = Seq::<char>::empty();
    let close = ind + "}\n"@;
    lemma_indent_flat(level as nat);
    lemma_line_block(ind, e0, "}\n"@);
    assert(close =~= ind + e0 + "}\n"@);
    match s {
        SpecStmt::VarDecl { explicit_type, name, init } => {
            lemma_for_clauses_flat(s, level);
            lemma_line_block(ind, spec_for_init(s), ";\n"@);
            assert(t =~= ind + spec_for_init(s) + ";\n"@);
        },
        SpecStmt::Assign { name, expr } => {
            lemma_for_clauses_flat(s, level);
            lemma_line_block(ind, spec_for_init(s), ";\n"@);
            assert(t =~= ind + spec_for_init(s) + ";\n"@);
        },
        SpecStmt::Return(o) => match o {
            Some(e) => {
                lemma_expr_flat(e);
                lemma_flat_concat("return "@, spec_emit_expr(e));
                lemma_line_block(ind, "return "@ + spec_emit_expr(e), ";\n"@);
                assert(t =~= ind + ("return "@ + spec_emit_expr(e)) + ";\n"@);
            },
            None => {
                lemma_line_block(ind, e0, "return;\n"@);
                assert(t =~= ind + e0 + "return;\n"@);
            },
        },
        SpecStmt::ExprStmt(e) => {
            lemma_expr_flat(e);
            match e {
                SpecExpr::Call { name, args } => {
                    if name == "print"@ {
                        let p = if args.len() > 0 {
                            " << "@ + spec_emit_expr(args[0]) + spec_print_rest_from(args, 1)
                        } else {
                            Seq::empty()
                        };
                        if args.len() > 0 {
                            assert(args_plain(args, 0));
                            lemma_expr_flat(args[0]);
                            lemma_print_rest_flat(args, 1);
                            lemma_flat3(" << "@, spec_emit_expr(args[0]), spec_print_rest_from(args, 1));
                        }
                        lemma_flat_concat("std::cout"@, p);
                        lemma_line_block(ind, "std::cout"@ + p, " << std::endl;\n"@);
                        assert(t =~= ind + ("std::cout"@ + p) + " << std::endl;\n"@);
                    } else {
                        lemma_line_block(ind, spec_emit_expr(e), ";\n"@);
                    }
                },
                _ => {
                    lemma_line_block(ind, spec_emit_expr(e), ";\n"@);
                },
            }
        },
        SpecStmt::If { cond, then_body, else_body } => {
            lemma_expr_flat(cond);
            lemma_flat_concat("if ("@, spec_emit_expr(cond));
            let open = ind + ("if ("@ + spec_emit_expr(cond)) + ") {\n"@;
            lemma_line_block(ind, "if ("@ + spec_emit_expr(cond), ") {\n"@);
            let b1 = spec_emit_stmts_from(then_body, 0, spec_deeper(level));
            lemma_body_block(then_body, level);
            lemma_block_concat(open, b1, ind);
            lemma_block_concat(open + b1, close, ind);
            let tail = if else_body.len() > 0 {
                ind + "else {\n"@ + spec_emit_stmts_from(else_body, 0, spec_deeper(level)) + ind
                    + "}\n"@
            } else {
                Seq::empty()
            };
            if else_body.len() > 0 {
                let b2 = spec_emit_stmts_from(else_body, 0, spec_deeper(level));
                let open2 = ind + e0 + "else {\n"@;
                lemma_line_block(ind, e0, "else {\n"@);
                lemma_body_block(else_body, level);
                lemma_block_concat(open2, b2, ind);
                lemma_block_concat(open2 + b2, close, ind);
                assert(tail =~= open2 + b2 + close);
            }
            lemma_block_concat(open + b1 + close, tail, ind);
            assert(t =~= open + b1 + close + tail);
        },
        SpecStmt::While { cond, body } => {
            lemma_expr_flat(cond);
            lemma_flat_concat("while ("@, spec_emit_expr(cond));
            let open = ind + ("while ("@ + spec_emit_expr(cond)) + ") {\n"@;
            lemma_line_block(ind, "while ("@ + spec_emit_expr(cond), ") {\n"@);
            let b = spec_emit_stmts_from(body, 0, spec_deeper(level));
            lemma_body_block(body, level);
            lemma_block_concat(open, b, ind);
            lemma_block_concat(open + b, close, ind);
            assert(t =~= open + b + close);
        },
        SpecStmt::DoWhile { body, cond } => {
            lemma_expr_flat(cond);
            lemma_flat_concat("} while ("@, spec_emit_expr(cond));
            let open = ind + e0 + "do {\n"@;
            lemma_line_block(ind, e0, "do {\n"@);
            let shut = ind + ("} while ("@ + spec_emit_expr(cond)) + ");\n"@;
            lemma_line_block(ind, "} while ("@ + spec_emit_expr(cond), ");\n"@);
            let b = spec_emit_stmts_from(body, 0, spec_deeper(level));
            lemma_body_block(body, level);
            lemma_block_concat(open, b, ind);
            lemma_block_concat(open + b, shut, ind);
            assert(t =~= open + b + shut);
        },
        SpecStmt::For { init, cond, step, body } => {
            lemma_expr_flat(cond);
            lemma_for_clauses_flat(*init, level);
            lemma_for_clauses_flat(*step, level);
            let head = "for ("@ + spec_for_init(*init) + "; "@ + spec_emit_expr(cond) + "; "@
                + spec_for_step(*step);
            lemma_flat3("for ("@, spec_for_init(*init), "; "@);
            lemma_flat3("for ("@ + spec_for_init(*init) + "; "@, spec_emit_expr(cond), "; "@);
            lemma_flat_concat(
                "for ("@ + spec_for_init(*init) + "; "@ + spec_emit_expr(cond) + "; "@,
                spec_for_step(*step),
            );
            let open = ind + head + ") {\n"@;
            lemma_line_block(ind, head, ") {\n"@);
            let b = spec_emit_stmts_from(body, 0, spec_deeper(level));
            lemma_body_block(body, level);
            lemma_block_concat(open, b, ind);
            lemma_block_concat(open + b, close, ind);
            assert(t =~= open + b + close);
        },
        SpecStmt::Switch { expr, cases } => {
            lemma_expr_flat(expr);
            lemma_flat_concat("switch ("@, spec_emit_expr(expr));
            let open = ind + ("switch ("@ + spec_emit_expr(expr)) + ") {\n"@;
            lemma_line_block(ind, "switch ("@ + spec_emit_expr(expr), ") {\n"@);
            let inner = (level + 1) as usize;
            let b = spec_emit_cases_from(cases, 0, spec_deeper(level));
            lemma_cases_block(cases, 0, inner);
            assert(spec_indent(inner as nat) == ind + "    "@);
            lemma_block_weaken(b, ind, "    "@);
            lemma_block_concat(open, b, ind);
            lemma_block_concat(open + b, close, ind);
            assert(t =~= open + b + close);
        },
        SpecStmt::Break => {
            lemma_line_block(ind, e0, "break;\n"@);
            assert(t =~= ind + e0 + "break;\n"@);
        },
        SpecStmt::Continue => {
            lemma_line_block(ind, e0, "continue;\n"@);
            assert(t =~= ind + e0 + "continue;\n"@);
        },
        SpecStmt::Empty => {},
    }
}


proof fn lemma_indent_len(level: nat)
    ensures
        spec_indent(level).len() == 4 * level,
        forall|j: int| 0 <= j < spec_indent(level).len() ==> #[trigger] spec_indent(level)[j] == ' ',
    decreases level,
{
    reveal_strlit("    ");
    if level > 0 {
        lemma_indent_len((level - 1) as nat);
    }
}

/// The text of a statement at `level` (what `emit_stmt` appends) is whole lines, each ending in
/// a line break and beginning with `4 * level` spaces, where no name or number text in it holds
/// a line break and its bodies nest within the levels there are; it is empty exactly for the
/// empty statement.
pub proof fn lemma_stmt_lines_are_indented(s: SpecStmt, level: usize)
    requires
        stmt_plain(s, level),
    ensures
        indented_block(spec_emit_stmt(s, level), spec_indent(level as nat)),
        spec_indent(level as nat).len() == 4 * level,
        forall|j: int| 0 <= j < 4 * level ==> #[trigger] spec_indent(level as nat)[j] == ' ',
        (spec_emit_stmt(s, level).len() == 0) == (s is Empty),
{
    lemma_stmt_block(s, level);
    lemma_indent_len(level as nat);
    lemma_stmt_text_is_indented_lines(s, level);
}


// ---------------------------------------------------------------------------
// Operators: the C++ text of each one is its source spelling.

/// The binary operator that the parser builds from a token of kind `k`, at whichever level of
/// precedence takes that token.
pub open spec fn parser_binop(k: SpecTokenKind) -> Option<BinOp> {
    let ts = seq![SpecToken { kind: k, line: 1, column: 1 }];
    if or_op(ts, 0) is Some {
        or_op(ts, 0)
    } else if and_op(ts, 0) is Some {
        and_op(ts, 0)
    } else if equality_op(ts, 0) is Some {
        equality_op(ts, 0)
    } else if comparison_op(ts, 0) is Some {
        comparison_op(ts, 0)
    } else if add_sub_op(ts, 0) is Some {
        add_sub_op(ts, 0)
    } else {
        mul_div_op(ts, 0)
    }
}

/// Text made of a space, one token of kind `k`, and a space lexes as that one token.
proof fn lemma_lex_spaced_token(cs: Seq<char>, k: SpecTokenKind)
    requires
        cs.len() >= 3,
        cs[0] == ' ',
        cs[cs.len() - 1] == ' ',
        lex_step(cs, LexState { pos: 1, line: 1, column: 2 }) == LexStep::Emit(
            k,
            LexState { pos: cs.len() - 1, line: 1, column: cs.len() as int },
        ),
    ensures
        spec_tokenize(cs) matches Ok(ts) && ts.len() == 2 && ts[0].kind == k && ts[1].kind
            == SpecTokenKind::EOF,
{
    let s0 = LexState { pos: 0, line: 1, column: 1 };
    let s1 = LexState { pos: 1, line: 1, column: 2 };
    let s2 = LexState { pos: cs.len() - 1, line: 1, column: cs.len() as int };
    let s3 = LexState { pos: cs.len() as int, line: 1, column: cs.len() + 1int };
    assert(lex_step(cs, s0) == LexStep::Skip(s1));
    assert(lex_step(cs, s2) == LexStep::Skip(s3));
    assert(lex_from(cs, s3) == Ok::<Seq<SpecToken>, SpecCompileError>(seq![token_at(SpecTokenKind::EOF, s3)]));
    assert(lex_from(cs, s2) == lex_from(cs, s3));
    assert(lex_from(cs, s1) == Ok::<Seq<SpecToken>, SpecCompileError>(
        seq![token_at(k, s1)] + seq![token_at(SpecTokenKind::EOF, s3)],
    ));
    assert(lex_from(cs, s0) == lex_from(cs, s1));
}

/// Each binary operator is written in C++ as its own source spelling between spaces: the lexer
/// reads that text as exactly one token, which the parser turns back into the same operator.
/// So distinct operators are written differently, and every comparison keeps its direction.
pub proof fn lemma_operator_text_reads_back(op: BinOp)
    ensures
        spec_tokenize(spec_binop_str(op)) matches Ok(ts) && ts.len() == 2 && ts[1].kind
            == SpecTokenKind::EOF && parser_binop(ts[0].kind) == Some(op),
{
    reveal_strlit(" + ");
    reveal_strlit(" - ");
    reveal_strlit(" * ");
    reveal_strlit(" / ");
    reveal_strlit(" % ");
    reveal_strlit(" < ");
    reveal_strlit(" > ");
    reveal_strlit(" <= ");
    reveal_strlit(" >= ");
    reveal_strlit(" == ");
    reveal_strlit(" != ");
    reveal_strlit(" && ");
    reveal_strlit(" || ");
    let cs = spec_binop_str(op);
    let k = match op {
        BinOp::Add => SpecTokenKind::Plus,
        BinOp::Sub => SpecTokenKind::Minus,
        BinOp::Mul => SpecTokenKind::Star,
        BinOp::Div => SpecTokenKind::Slash,
        BinOp::Mod => SpecTokenKind::Percent,
        BinOp::Less => SpecTokenKind::Less,
        BinOp::Greater => SpecTokenKind::Greater,
        BinOp::LessEqual => SpecTokenKind::LessEqual,
        BinOp::GreaterEqual => SpecTokenKind::GreaterEqual,
        BinOp::Equal => SpecTokenKind::EqualEqual,
        BinOp::NotEqual => SpecTokenKind::BangEqual,
        BinOp::And => SpecTokenKind::AndAnd,
        BinOp::Or => SpecTokenKind::OrOr,
    };
    let s1 = LexState { pos: 1, line: 1, column: 2 };
    let s2 = LexState { pos: cs.len() - 1, line: 1, column: cs.len() as int };
    assert(lex_step(cs, s1) == LexStep::Emit(k, s2));
    lemma_lex_spaced_token(cs, k);
}


/// The C++ text of a unary operator: its prefix spelling, or `++` / `--` after the operand.
pub open spec fn unary_text(op: UnaryOp) -> Seq<char> {
    match op {
        UnaryOp::PostInc => "++"@,
        UnaryOp::PostDec => "--"@,
        _ => spec_prefix_op_str(op),
    }
}

/// Each unary operator is written in C++ as its own source spelling: the lexer reads that text
/// as exactly one token, which the parser turns back into the same operator, before the operand
/// for a prefix operator and after it for a postfix one.
pub proof fn lemma_unary_operator_text_reads_back(op: UnaryOp)
    ensures
        spec_tokenize(seq![' '] + unary_text(op) + seq![' ']) matches Ok(ts) && ts.len() == 2
            && ts[1].kind == SpecTokenKind::EOF && (if op is PostInc || op is PostDec {
            postfix_op(seq![SpecToken { kind: ts[0].kind, line: 1, column: 1 }], 0)
        } else {
            prefix_op(seq![SpecToken { kind: ts[0].kind, line: 1, column: 1 }], 0)
        }) == Some(op),
{
    reveal_strlit("++");
    reveal_strlit("--");
    reveal_strlit("-");
    reveal_strlit("!");
    let cs = seq![' '] + unary_text(op) + seq![' '];
    let k = match op {
        UnaryOp::Neg => SpecTokenKind::Minus,
        UnaryOp::Not => SpecTokenKind::Bang,
        UnaryOp::PreInc => SpecTokenKind::PlusPlus,
        UnaryOp::PreDec => SpecTokenKind::MinusMinus,
        UnaryOp::PostInc => SpecTokenKind::PlusPlus,
        UnaryOp::PostDec => SpecTokenKind::MinusMinus,
    };
    let s1 = LexState { pos: 1, line: 1, column: 2 };
    let s2 = LexState { pos: cs.len() - 1, line: 1, column: cs.len() as int };
    assert(cs[0] == ' ' && cs[cs.len() - 1] == ' ');
    assert(cs[1] == unary_text(op)[0]);
    if unary_text(op).len() == 2 {
        assert(cs[2] == unary_text(op)[1]);
    }
    assert(lex_step(cs, s1) == LexStep::Emit(k, s2));
    lemma_lex_spaced_token(cs, k);
}


/// The lexer reads the C++ text of a character literal (what `emit_expr` appends for it) back
/// as that character: one character token at line 1, column 1, then the end of input.
pub proof fn lemma_lexer_reads_char_literal_back(c: char)
    ensures
        spec_tokenize(spec_emit_expr(SpecExpr::CharLiteral(c))) matches Ok(ts) && ts.len() == 2
            && ts[0].kind == SpecTokenKind::CharLit(c) && ts[0].line == 1 && ts[0].column == 1
            && ts[1].kind == SpecTokenKind::EOF,
{
    let esc = spec_escape_in_char(c);
    let cs = spec_emit_expr(SpecExpr::CharLiteral(c));
    assert(cs == seq!['\''] + esc + seq!['\'']);
    let s0 = LexState { pos: 0, line: 1, column: 1 };
    let n = cs.len() as int;
    let end = LexState { pos: n, line: 1, column: n + 1 };
    assert(cs[0] == '\'');
    assert(cs[1] == esc[0]);
    if esc.len() == 2 {
        assert(cs[2] == esc[1]);
        assert(cs[3] == '\'');
        assert(unescape(esc[1]) == c);
    } else {
        assert(cs[2] == '\'');
    }
    assert(spec_lex_char(cs, s0) == Ok::<(SpecTokenKind, LexState), SpecCompileError>(
        (SpecTokenKind::CharLit(c), end),
    ));
    assert(lex_step(cs, s0) == LexStep::Emit(SpecTokenKind::CharLit(c), end));
    assert(lex_from(cs, end) == Ok::<Seq<SpecToken>, SpecCompileError>(
        seq![token_at(SpecTokenKind::EOF, end)],
    ));
}

} // verus!
