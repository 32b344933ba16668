use vstd::prelude::*;
use crate::ast::{
    FunctionDecl, Program, SpecFunction, SpecParam, TypeName, Visibility, format_type, functions_view,
    lemma_stmts_view_index, params_view, spec_format_type,
};
use crate::color::{apply_colors, spec_apply_colors};
use crate::error::{CompileError, ErrorCode, SpecCompileError, all_error_codes};
use crate::text::{
    chars_eq_str, chars_of, lines_of, push_chars, push_str, push_usize_decimal, spec_lines, string_is,
    spec_nat_decimal, string_of, strings_view, char_vecs_view,
};
use crate::checker::type_debug;
use crate::ast::SpecToken;
use crate::grammar::{p_visibility, type_of_kind};
use crate::lexer::keyword_kind;
use crate::typing::{find_function, find_function_from, spec_type_debug};
use vstd::string::StringExecFns;

verus! {

// The text the compiler shows to its users: error reports and explanations, as lines.

/// `[CODE] ` for an error with a code; nothing otherwise.
pub open spec fn spec_code_label(code: Option<ErrorCode>) -> Seq<char> {
    match code {
        Some(c) => "["@ + c.spec_as_str() + "] "@,
        None => Seq::empty(),
    }
}

/// The first line of an error report, before its colour placeholders are replaced.
pub open spec fn spec_error_header(e: SpecCompileError, filename: Seq<char>) -> Seq<char> {
    filename + ":"@ + spec_nat_decimal(e.line as nat) + ":"@ + spec_nat_decimal(e.column as nat)
        + ": {RED}{BOLD}error:{RESET} "@ + spec_code_label(e.code) + e.message
}

pub open spec fn spec_spaces(n: nat) -> Seq<char> {
    Seq::new(n, |i: int| ' ')
}

/// The number of spaces before the caret that points at column `column`.
pub open spec fn caret_offset(column: usize) -> nat {
    if column >= 1 {
        (column - 1) as nat
    } else {
        0
    }
}

/// The lines of an error report: the message with the file name and position; then, if the
/// source has the line of the error, that line and a caret under the column.
pub open spec fn spec_error_report(e: SpecCompileError, filename: Seq<char>, src: Seq<char>) -> Seq<
    Seq<char>,
> {
    let lines = spec_lines(src);
    let first = spec_apply_colors(spec_error_header(e, filename));
    if e.line - 1 < lines.len() {
        seq![
            first,
            spec_apply_colors(
                "{DIM}  "@ + spec_nat_decimal(e.line as nat) + " |{RESET} "@ + lines[e.line - 1],
            ),
            spec_apply_colors(
                "{DIM}    |{RESET} "@ + spec_spaces(caret_offset(e.column))
                    + "{RED}↑{RESET}"@,
            ),
        ]
    } else {
        seq![first]
    }
}

/// The report of a compile error for the source `src` of the file `filename`, line by line,
/// with the colour placeholders replaced. The error's line is counted from 1.
pub fn error_report(err: &CompileError, filename: &str, src: &str) -> (r: Vec<String>)
    requires
        err.pos.line >= 1,
    ensures
        strings_view(r@) == spec_error_report(err@, filename@, src@),
{
    let line = err.pos.line;
    let col = err.pos.column;
    let mut header: Vec<char> = Vec::new();
    push_str(&mut header, filename);
    push_str(&mut header, ":");
    push_usize_decimal(&mut header, line);
    push_str(&mut header, ":");
    push_usize_decimal(&mut header, col);
    push_str(&mut header, ": {RED}{BOLD}error:{RESET} ");
    match &err.code {
        Some(code) => {
            push_str(&mut header, "[");
            push_str(&mut header, code.as_str());
            push_str(&mut header, "] ");
        },
        None => {},
    }
    push_str(&mut header, err.message.as_str());
    assert(header@ =~= spec_error_header(err@, filename@));
    let mut out: Vec<String> = Vec::new();
    out.push(apply_colors(string_of(&header).as_str()));
    let src_chars = chars_of(src);
    let lines = lines_of(&src_chars);
    if line - 1 < lines.len() {
        let mut shown: Vec<char> = Vec::new();
        push_str(&mut shown, "{DIM}  ");
        push_usize_decimal(&mut shown, line);
        push_str(&mut shown, " |{RESET} ");
        push_chars(&mut shown, &lines[line - 1]);
        out.push(apply_colors(string_of(&shown).as_str()));
        let mut caret: Vec<char> = Vec::new();
        push_str(&mut caret, "{DIM}    |{RESET} ");
        let ghost before = caret@;
        let mut k: usize = 1;
        while k < col
            invariant
                1 <= k,
                k <= col || k == 1,
                caret@ == before + spec_spaces((k - 1) as nat),
            decreases col - k,
        {
            caret.push(' ');
            k = k + 1;
            assert(caret@ =~= before + spec_spaces((k - 1) as nat));
        }
        assert(caret_offset(col) == (k - 1) as nat);
        push_str(&mut caret, "{RED}↑{RESET}");
        out.push(apply_colors(string_of(&caret).as_str()));
        proof {
            assert(char_vecs_view(lines@)[line - 1] == lines@[line - 1]@);
        }
    }
    assert(strings_view(out@) =~= spec_error_report(err@, filename@, src@));
    out
}

// ---------------------------------------------------------------------------
// Explanations of error codes.

/// The explanation of an error code: its name, its description (colour placeholders
/// replaced), a hint, and an example; one text per printed line group.
pub open spec fn spec_explain_error(code: ErrorCode) -> Seq<Seq<char>> {
    seq![
        "error code: "@ + code.spec_as_str(),
        "description:\n "@ + spec_apply_colors(code.spec_description()),
        "help: "@ + code.spec_help(),
        "example:\n"@ + code.spec_example(),
    ]
}

/// The explanation of an error code, as the texts to print one after the other.
pub fn explain_error_text(code: ErrorCode) -> (r: Vec<String>)
    ensures
        strings_view(r@) == spec_explain_error(code),
{
    let mut out: Vec<String> = Vec::new();
    let mut a: Vec<char> = Vec::new();
    push_str(&mut a, "error code: ");
    push_str(&mut a, code.as_str());
    out.push(string_of(&a));
    let mut b: Vec<char> = Vec::new();
    push_str(&mut b, "description:\n ");
    let d = apply_colors(code.description());
    push_str(&mut b, d.as_str());
    out.push(string_of(&b));
    let mut c: Vec<char> = Vec::new();
    push_str(&mut c, "help: ");
    push_str(&mut c, code.help());
    out.push(string_of(&c));
    let mut e: Vec<char> = Vec::new();
    push_str(&mut e, "example:\n");
    push_str(&mut e, code.example());
    out.push(string_of(&e));
    assert(strings_view(out@) =~= spec_explain_error(code));
    out
}

/// Every error code, in the order in which they are listed.
pub fn error_codes() -> (r: Vec<ErrorCode>)
    ensures
        r@ == all_error_codes(),
{
    let r = vec![
        ErrorCode::MainMustReturnInt,
        ErrorCode::NonVoidMustReturn,
        ErrorCode::DuplicateFunction,
        ErrorCode::DuplicateParameter,
        ErrorCode::UndeclaredVariable,
        ErrorCode::AssignmentTypeMismatch,
        ErrorCode::ReturnTypeMismatch,
        ErrorCode::ConditionMustBeBool,
        ErrorCode::SwitchTypeMismatch,
        ErrorCode::UndefinedFunction,
        ErrorCode::FunctionArgCountMismatch,
        ErrorCode::FunctionArgTypeMismatch,
        ErrorCode::TernaryTypeMismatch,
        ErrorCode::InvalidBinaryOperation,
        ErrorCode::InvalidUnaryOperation,
        ErrorCode::UnsafeNotAllowed,
    ];
    assert(r@ =~= all_error_codes());
    r
}

pub open spec fn spec_code_entry(c: ErrorCode) -> Seq<char> {
    "- "@ + c.spec_as_str() + ": "@ + c.spec_description()
}

/// How to ask for explanations, and the list of error codes with their descriptions.
pub open spec fn spec_explain_error_help() -> Seq<Seq<char>> {
    seq![
        "usage: snekplusplus explain <ERROR_CODE> | explain <file.spp> [function]"@,
        "Available error codes:"@,
    ] + all_error_codes().map_values(|c: ErrorCode| spec_code_entry(c))
}

/// The usage of explanations and the list of all error codes, line by line.
pub fn explain_error_help_text() -> (r: Vec<String>)
    ensures
        strings_view(r@) == spec_explain_error_help(),
{
    let mut out: Vec<String> = Vec::new();
    out.push(String::from_str("usage: snekplusplus explain <ERROR_CODE> | explain <file.spp> [function]"));
    out.push(String::from_str("Available error codes:"));
    let ghost head = strings_view(out@);
    let codes = error_codes();
    let mut i: usize = 0;
    while i < codes.len()
        invariant
            i <= codes.len(),
            codes@ == all_error_codes(),
            strings_view(out@) == head + codes@.take(i as int).map_values(
                |c: ErrorCode| spec_code_entry(c),
            ),
        decreases codes.len() - i,
    {
        let c = codes[i];
        let mut m: Vec<char> = Vec::new();
        push_str(&mut m, "- ");
        push_str(&mut m, c.as_str());
        push_str(&mut m, ": ");
        push_str(&mut m, c.description());
        assert(m@ =~= spec_code_entry(c));
        let ghost prev = strings_view(out@);
        out.push(string_of(&m));
        assert(strings_view(out@) =~= prev.push(spec_code_entry(c)));
        i = i + 1;
        assert(codes@.take(i as int) =~= codes@.take(i - 1).push(c));
        assert(codes@.take(i as int).map_values(|c: ErrorCode| spec_code_entry(c)) =~= codes@.take(
            i - 1,
        ).map_values(|c: ErrorCode| spec_code_entry(c)).push(spec_code_entry(c)));
        assert(strings_view(out@) =~= head + codes@.take(i as int).map_values(
            |c: ErrorCode| spec_code_entry(c),
        ));
    }
    assert(codes@.take(codes.len() as int) =~= codes@);
    assert(strings_view(out@) =~= spec_explain_error_help());
    out
}

// ---------------------------------------------------------------------------
// Explanations of a program.

/// What std's derived `Debug` writes for a visibility.
pub open spec fn spec_visibility_debug(v: Visibility) -> Seq<char> {
    match v {
        Visibility::Public => "Public"@,
        Visibility::Private => "Private"@,
        Visibility::Protected => "Protected"@,
    }
}

fn visibility_debug(v: Visibility) -> (r: &'static str)
    ensures
        r@ == spec_visibility_debug(v),
{
    match v {
        Visibility::Public => "Public",
        Visibility::Private => "Private",
        Visibility::Protected => "Protected",
    }
}

/// The parameters `ps[i..]` in source spelling, separated by commas.
pub open spec fn spec_param_list_from(ps: Seq<SpecParam>, i: int) -> Seq<char>
    decreases ps.len() - i,
{
    if i < 0 || i >= ps.len() {
        Seq::empty()
    } else {
        (if i > 0 {
            ", "@
        } else {
            Seq::empty()
        }) + spec_format_type(ps[i].ty) + " "@ + ps[i].name + spec_param_list_from(ps, i + 1)
    }
}

/// One line of the list of functions.
pub open spec fn spec_function_summary(f: SpecFunction) -> Seq<char> {
    "- "@ + f.name + (if f.name == "Main"@ {
        " (entry)"@
    } else {
        Seq::empty()
    }) + "("@ + spec_param_list_from(f.params, 0) + ") -> "@ + spec_type_debug(f.return_type)
}

pub open spec fn spec_param_line(p: SpecParam) -> Seq<char> {
    "    - "@ + p.name + ": "@ + spec_type_debug(p.ty)
}

/// The description of one function.
pub open spec fn spec_function_details(f: SpecFunction) -> Seq<Seq<char>> {
    seq![
        "function '"@ + f.name + "':"@,
        "  return: "@ + spec_type_debug(f.return_type),
        "  visibility: "@ + spec_visibility_debug(f.visibility),
    ] + (if f.params.len() == 0 {
        seq!["  params: (none)"@]
    } else {
        seq!["  params:"@] + f.params.map_values(|p: SpecParam| spec_param_line(p))
    }) + seq!["  body statements: "@ + spec_nat_decimal(f.body.len())]
}

/// The explanation of a program: the list of its functions, or the description of the first
/// function named `item`, or, if there is none, the names of all functions.
pub open spec fn spec_explain_program(fs: Seq<SpecFunction>, item: Option<Seq<char>>) -> Seq<
    Seq<char>,
> {
    if fs.len() == 0 {
        seq!["no functions to explain"@]
    } else {
        match item {
            None => seq!["functions:"@] + fs.map_values(|f: SpecFunction| spec_function_summary(f)),
            Some(x) => match find_function(fs, x) {
                Some(f) => spec_function_details(f),
                None => seq!["symbol '"@ + x + "' not found; available functions:"@]
                    + fs.map_values(|f: SpecFunction| "  - "@ + f.name),
            },
        }
    }
}

fn function_summary(f: &FunctionDecl) -> (r: String)
    ensures
        r@ == spec_function_summary(f@),
{
    let mut m: Vec<char> = Vec::new();
    push_str(&mut m, "- ");
    push_str(&mut m, f.name.as_str());
    if string_is(&f.name, "Main") {
        push_str(&mut m, " (entry)");
    }
    push_str(&mut m, "(");
    let ghost mid = m@;
    let ghost pv = params_view(f.params@);
    let mut i: usize = 0;
    while i < f.params.len()
        invariant
            i <= f.params.len(),
            pv == params_view(f.params@),
            m@ + spec_param_list_from(pv, i as int) == mid + spec_param_list_from(pv, 0),
        decreases f.params.len() - i,
    {
        let ghost before = m@;
        if i > 0 {
            push_str(&mut m, ", ");
        }
        push_str(&mut m, format_type(f.params[i].ty));
        push_str(&mut m, " ");
        push_str(&mut m, f.params[i].name.as_str());
        proof {
            reveal_strlit(", ");
            let sep = if i > 0 {
                ", "@
            } else {
                Seq::<char>::empty()
            };
            assert(m@ =~= before + sep + spec_format_type(pv[i as int].ty) + " "@ + pv[i as int].name);
            assert(before + spec_param_list_from(pv, i as int) =~= m@ + spec_param_list_from(pv, i + 1));
        }
        i = i + 1;
    }
    push_str(&mut m, ") -> ");
    push_str(&mut m, type_debug(f.return_type));
    proof {
        reveal_strlit("");
    }
    assert(m@ =~= spec_function_summary(f@));
    string_of(&m)
}

fn function_details(f: &FunctionDecl) -> (r: Vec<String>)
    ensures
        strings_view(r@) == spec_function_details(f@),
{
    let mut out: Vec<String> = Vec::new();
    let mut a: Vec<char> = Vec::new();
    push_str(&mut a, "function '");
    push_str(&mut a, f.name.as_str());
    push_str(&mut a, "':");
    out.push(string_of(&a));
    let mut b: Vec<char> = Vec::new();
    push_str(&mut b, "  return: ");
    push_str(&mut b, type_debug(f.return_type));
    out.push(string_of(&b));
    let mut c: Vec<char> = Vec::new();
    push_str(&mut c, "  visibility: ");
    push_str(&mut c, visibility_debug(f.visibility));
    out.push(string_of(&c));
    let ghost pv = params_view(f.params@);
    let ghost lines = pv.map_values(|p: SpecParam| spec_param_line(p));
    if f.params.len() == 0 {
        out.push(String::from_str("  params: (none)"));
    } else {
        out.push(String::from_str("  params:"));
        let ghost head = strings_view(out@);
        let mut i: usize = 0;
        while i < f.params.len()
            invariant
                i <= f.params.len(),
                pv == params_view(f.params@),
                lines == pv.map_values(|p: SpecParam| spec_param_line(p)),
                strings_view(out@) == head + lines.take(i as int),
            decreases f.params.len() - i,
        {
            let mut m: Vec<char> = Vec::new();
            push_str(&mut m, "    - ");
            push_str(&mut m, f.params[i].name.as_str());
            push_str(&mut m, ": ");
            push_str(&mut m, type_debug(f.params[i].ty));
            assert(m@ =~= lines[i as int]);
            let ghost prev = strings_view(out@);
            out.push(string_of(&m));
            assert(strings_view(out@) =~= prev.push(lines[i as int]));
            i = i + 1;
            assert(lines.take(i as int) =~= lines.take(i - 1).push(lines[i - 1]));
        }
        assert(lines.take(f.params.len() as int) =~= lines);
    }
    let mut d: Vec<char> = Vec::new();
    push_str(&mut d, "  body statements: ");
    push_usize_decimal(&mut d, f.body.len());
    proof {
        lemma_stmts_view_index(f.body@);
    }
    let ghost prev = strings_view(out@);
    out.push(string_of(&d));
    assert(strings_view(out@) =~= prev.push(d@));
    assert(strings_view(out@) =~= spec_function_details(f@));
    out
}

/// The explanation of a program, line by line: for no item, the list of its functions; for
/// an item, the description of the first function of that name, or, if there is none, the
/// names of all functions.
pub fn explain_program_text(program: &Program, item: Option<&str>) -> (r: Vec<String>)
    ensures
        strings_view(r@) == spec_explain_program(
            program@,
            match item {
                Some(x) => Some(x@),
                None => None,
            },
        ),
{
    let funcs = &program.functions;
    let ghost fv = functions_view(funcs@);
    let mut out: Vec<String> = Vec::new();
    if funcs.len() == 0 {
        out.push(String::from_str("no functions to explain"));
        assert(strings_view(out@) =~= seq!["no functions to explain"@]);
        return out;
    }
    match item {
        None => {
            out.push(String::from_str("functions:"));
            let ghost head = strings_view(out@);
            let ghost lines = fv.map_values(|f: SpecFunction| spec_function_summary(f));
            let mut i: usize = 0;
            while i < funcs.len()
                invariant
                    i <= funcs.len(),
                    fv == functions_view(funcs@),
                    lines == fv.map_values(|f: SpecFunction| spec_function_summary(f)),
                    strings_view(out@) == head + lines.take(i as int),
                decreases funcs.len() - i,
            {
                let s = function_summary(&funcs[i]);
                let ghost prev = strings_view(out@);
                out.push(s);
                assert(strings_view(out@) =~= prev.push(lines[i as int]));
                i = i + 1;
                assert(lines.take(i as int) =~= lines.take(i - 1).push(lines[i - 1]));
            }
            assert(lines.take(funcs.len() as int) =~= lines);
            assert(strings_view(out@) =~= seq!["functions:"@] + lines);
            out
        },
        Some(x) => {
            let mut k: usize = 0;
            while k < funcs.len()
                invariant
                    k <= funcs.len(),
                    funcs.len() > 0,
                    item == Some(x),
                    fv == program@,
                    fv == functions_view(funcs@),
                    find_function_from(fv, x@, 0) == find_function_from(fv, x@, k as int),
                decreases funcs.len() - k,
            {
                let v = chars_of(funcs[k].name.as_str());
                if chars_eq_str(&v, x) {
                    assert(fv[k as int] == funcs@[k as int]@);
                    return function_details(&funcs[k]);
                }
                k = k + 1;
            }
            let mut a: Vec<char> = Vec::new();
            push_str(&mut a, "symbol '");
            push_str(&mut a, x);
            push_str(&mut a, "' not found; available functions:");
            out.push(string_of(&a));
            let ghost head = strings_view(out@);
            let ghost lines = fv.map_values(|f: SpecFunction| "  - "@ + f.name);
            let mut i: usize = 0;
            while i < funcs.len()
                invariant
                    i <= funcs.len(),
                    fv == functions_view(funcs@),
                    lines == fv.map_values(|f: SpecFunction| "  - "@ + f.name),
                    strings_view(out@) == head + lines.take(i as int),
                decreases funcs.len() - i,
            {
                let mut m: Vec<char> = Vec::new();
                push_str(&mut m, "  - ");
                push_str(&mut m, funcs[i].name.as_str());
                let ghost prev = strings_view(out@);
                out.push(string_of(&m));
                assert(strings_view(out@) =~= prev.push(lines[i as int]));
                i = i + 1;
                assert(lines.take(i as int) =~= lines.take(i - 1).push(lines[i - 1]));
            }
            assert(lines.take(funcs.len() as int) =~= lines);
            assert(strings_view(out@) =~= seq!["symbol '"@ + x@ + "' not found; available functions:"@] + lines);
            out
        },
    }
}


/// A letter in lower case (ASCII); any other character as it is.
pub open spec fn lower_ascii(c: char) -> char {
    if 'A' <= c <= 'Z' {
        ((c as u32) as int + 32) as char
    } else {
        c
    }
}

/// A text with its first character in lower case.
pub open spec fn lower_first(s: Seq<char>) -> Seq<char> {
    if s.len() == 0 {
        s
    } else {
        seq![lower_ascii(s[0])] + s.skip(1)
    }
}

/// The label of a visibility names its keyword: with its first letter in lower case it is the
/// word that the lexer reads as the keyword from which the parser builds that very visibility.
/// So distinct visibilities get distinct labels.
pub proof fn lemma_visibility_label_names_its_keyword(v: Visibility, w: Visibility)
    ensures
        p_visibility(
            seq![SpecToken { kind: keyword_kind(lower_first(spec_visibility_debug(v))), line: 1, column: 1 }],
            0,
        ) matches Ok((x, _)) && x == v,
        v != w ==> spec_visibility_debug(v) != spec_visibility_debug(w),
{
    reveal_strlit("Public");
    reveal_strlit("Private");
    reveal_strlit("Protected");
    reveal_strlit("public");
    reveal_strlit("private");
    reveal_strlit("protected");
    let d = spec_visibility_debug(v);
    match v {
        Visibility::Public => {
            assert(lower_first(d) =~= "public"@);
        },
        Visibility::Private => {
            assert(lower_first(d) =~= "private"@);
        },
        Visibility::Protected => {
            assert(lower_first(d) =~= "protected"@);
        },
    }
    if v != w {
        let e = spec_visibility_debug(w);
        if d.len() == e.len() {
            assert(d[1] != e[1] || d[2] != e[2] || d[3] != e[3]);
        }
    }
}


/// A type's source spelling (`format_type`) is the keyword that the lexer and the parser read
/// back as that same type, and its label in messages (`type_debug`) is that spelling with a
/// capital first letter.
pub proof fn lemma_type_names_agree(t: TypeName)
    ensures
        type_of_kind(keyword_kind(spec_format_type(t))) == Some(t),
        lower_first(spec_type_debug(t)) == spec_format_type(t),
{
    reveal_strlit("int");
    reveal_strlit("bool");
    reveal_strlit("void");
    reveal_strlit("string");
    reveal_strlit("float");
    reveal_strlit("double");
    reveal_strlit("char");
    reveal_strlit("Int");
    reveal_strlit("Bool");
    reveal_strlit("Void");
    reveal_strlit("String");
    reveal_strlit("Float");
    reveal_strlit("Double");
    reveal_strlit("Char");
    reveal_strlit("public");
    reveal_strlit("private");
    reveal_strlit("protected");
    reveal_strlit("funct");
    reveal_strlit("var");
    assert("int"@[0] != "var"@[0]);
    assert("void"@[0] != "bool"@[0]);
    assert("string"@[0] != "public"@[0]);
    assert("float"@[1] != "funct"@[1]);
    assert("double"@[0] != "public"@[0] && "double"@[0] != "string"@[0]);
    assert("char"@[0] != "bool"@[0] && "char"@[0] != "void"@[0]);
    assert(lower_first(spec_type_debug(t)) =~= spec_format_type(t));
}

} // verus!
