use vstd::prelude::*;
use crate::ast::{
    BinOp, SpecExpr, SpecFunction, SpecParam, SpecStmt, SpecToken, SpecTokenKind, TypeName,
    UnaryOp, Visibility,
};
use crate::error::{SpecCompileError, spec_error_at};
use crate::text::{spec_debug_char, spec_debug_str, spec_int_decimal};
use crate::cursor::{adv, check, kind_at, moved, peek_kind, skip_comments, tok_at};

verus! {

// The model of the parser. Each function reads the tokens `ts` from position `p` and gives
// what it parsed together with the position after it, or the first error.
//
// The tokens always end with an end-of-input token; past the end of `ts` the parser sees that
// last token again. A few recursive calls are guarded by a test that the position moved
// forward; the executable parser always moves forward, so those guards always hold.
//
// The mutually recursive definitions are opaque: each function of the executable parser
// reveals the definition it follows and those of the functions it calls, one level deep.

broadcast use crate::cursor::lemma_skip_comments_bounds;

pub type PResult<T> = Result<(T, int), SpecCompileError>;

pub open spec fn error_at_token(m: Seq<char>, t: SpecToken) -> SpecCompileError {
    spec_error_at(m, t.line, t.column)
}

/// What the guards give when the position did not move; never reached by the parser.
pub open spec fn stalled<T>() -> PResult<T> {
    Err(spec_error_at("no progress"@, 0, 0))
}

/// What std's derived `Debug` writes for a token kind: the variant's name, and its payload in
/// brackets (text and characters quoted and escaped, numbers in decimal, a float literal as
/// the decimal text that denotes it).
pub open spec fn spec_kind_debug(k: SpecTokenKind) -> Seq<char> {
    match k {
        SpecTokenKind::Public => "Public"@,
        SpecTokenKind::Private => "Private"@,
        SpecTokenKind::Protected => "Protected"@,
        SpecTokenKind::Funct => "Funct"@,
        SpecTokenKind::Var => "Var"@,
        SpecTokenKind::Int => "Int"@,
        SpecTokenKind::Bool => "Bool"@,
        SpecTokenKind::Void => "Void"@,
        SpecTokenKind::StringType => "StringType"@,
        SpecTokenKind::Float => "Float"@,
        SpecTokenKind::Double => "Double"@,
        SpecTokenKind::CharType => "CharType"@,
        SpecTokenKind::If => "If"@,
        SpecTokenKind::Else => "Else"@,
        SpecTokenKind::While => "While"@,
        SpecTokenKind::DoWhile => "DoWhile"@,
        SpecTokenKind::For => "For"@,
        SpecTokenKind::Switch => "Switch"@,
        SpecTokenKind::Case => "Case"@,
        SpecTokenKind::Default => "Default"@,
        SpecTokenKind::Break => "Break"@,
        SpecTokenKind::Continue => "Continue"@,
        SpecTokenKind::Return => "Return"@,
        SpecTokenKind::True => "True"@,
        SpecTokenKind::False => "False"@,
        SpecTokenKind::Ident(s) => "Ident("@ + spec_debug_str(s) + ")"@,
        SpecTokenKind::Number(v) => "Number("@ + spec_int_decimal(v as int) + ")"@,
        SpecTokenKind::FloatLit(s) => "FloatLit("@ + s + ")"@,
        SpecTokenKind::StringLit(s) => "StringLit("@ + spec_debug_str(s) + ")"@,
        SpecTokenKind::CharLit(c) => "CharLit("@ + spec_debug_char(c) + ")"@,
        SpecTokenKind::LParen => "LParen"@,
        SpecTokenKind::RParen => "RParen"@,
        SpecTokenKind::LBrace => "LBrace"@,
        SpecTokenKind::RBrace => "RBrace"@,
        SpecTokenKind::LBracket => "LBracket"@,
        SpecTokenKind::RBracket => "RBracket"@,
        SpecTokenKind::Semicolon => "Semicolon"@,
        SpecTokenKind::Comma => "Comma"@,
        SpecTokenKind::Colon => "Colon"@,
        SpecTokenKind::Question => "Question"@,
        SpecTokenKind::Equal => "Equal"@,
        SpecTokenKind::Plus => "Plus"@,
        SpecTokenKind::Minus => "Minus"@,
        SpecTokenKind::Star => "Star"@,
        SpecTokenKind::Slash => "Slash"@,
        SpecTokenKind::Percent => "Percent"@,
        SpecTokenKind::Less => "Less"@,
        SpecTokenKind::Greater => "Greater"@,
        SpecTokenKind::Bang => "Bang"@,
        SpecTokenKind::EqualEqual => "EqualEqual"@,
        SpecTokenKind::BangEqual => "BangEqual"@,
        SpecTokenKind::LessEqual => "LessEqual"@,
        SpecTokenKind::GreaterEqual => "GreaterEqual"@,
        SpecTokenKind::AndAnd => "AndAnd"@,
        SpecTokenKind::OrOr => "OrOr"@,
        SpecTokenKind::PlusPlus => "PlusPlus"@,
        SpecTokenKind::MinusMinus => "MinusMinus"@,
        SpecTokenKind::Comment => "Comment"@,
        SpecTokenKind::EOF => "EOF"@,
    }
}
/// Consumes a token of kind `k`, after skipping comments.
pub open spec fn expect(ts: Seq<SpecToken>, p: int, k: SpecTokenKind) -> Result<int, SpecCompileError> {
    let q = skip_comments(ts, p);
    if kind_at(ts, q) == k {
        Ok(adv(ts, q))
    } else {
        Err(
            error_at_token(
                "expected "@ + spec_kind_debug(k) + ", got "@ + spec_kind_debug(tok_at(ts, q).kind),
                tok_at(ts, q),
            ),
        )
    }
}

pub open spec fn type_of_kind(k: SpecTokenKind) -> Option<TypeName> {
    match k {
        SpecTokenKind::Int => Some(TypeName::Int),
        SpecTokenKind::Bool => Some(TypeName::Bool),
        SpecTokenKind::Void => Some(TypeName::Void),
        SpecTokenKind::StringType => Some(TypeName::String),
        SpecTokenKind::Float => Some(TypeName::Float),
        SpecTokenKind::Double => Some(TypeName::Double),
        SpecTokenKind::CharType => Some(TypeName::Char),
        _ => None,
    }
}

/// The kinds that start a variable declaration: a type other than `void`, or `var` (no
/// type).
pub open spec fn decl_type_of_kind(k: SpecTokenKind) -> Option<Option<TypeName>> {
    match k {
        SpecTokenKind::Int => Some(Some(TypeName::Int)),
        SpecTokenKind::Bool => Some(Some(TypeName::Bool)),
        SpecTokenKind::StringType => Some(Some(TypeName::String)),
        SpecTokenKind::Float => Some(Some(TypeName::Float)),
        SpecTokenKind::Double => Some(Some(TypeName::Double)),
        SpecTokenKind::CharType => Some(Some(TypeName::Char)),
        SpecTokenKind::Var => Some(None),
        _ => None,
    }
}

pub open spec fn p_type(ts: Seq<SpecToken>, p: int) -> PResult<TypeName> {
    let q = skip_comments(ts, p);
    match type_of_kind(kind_at(ts, q)) {
        Some(ty) => Ok((ty, adv(ts, q))),
        None => Err(error_at_token("expected type"@, tok_at(ts, q))),
    }
}

pub open spec fn p_visibility(ts: Seq<SpecToken>, p: int) -> PResult<Visibility> {
    let q = skip_comments(ts, p);
    match kind_at(ts, q) {
        SpecTokenKind::EOF => Ok((Visibility::Private, adv(ts, q))),
        SpecTokenKind::Public => Ok((Visibility::Public, adv(ts, q))),
        SpecTokenKind::Private => Ok((Visibility::Private, adv(ts, q))),
        SpecTokenKind::Protected => Ok((Visibility::Protected, adv(ts, q))),
        _ => Err(error_at_token("expected visibility (public/private/protected)"@, tok_at(ts, q))),
    }
}

/// An identifier at `p` followed by `=`.
pub open spec fn lookahead_assign(ts: Seq<SpecToken>, p: int) -> bool {
    peek_kind(ts, p) matches Some(SpecTokenKind::Ident(_)) && peek_kind(ts, p + 1) == Some(
        SpecTokenKind::Equal,
    )
}

// ---------------------------------------------------------------------------
// Expressions, from the loosest operator to the tightest.

#[verifier::opaque]
pub open spec fn p_expr(ts: Seq<SpecToken>, p: int) -> PResult<SpecExpr>
    decreases ts.len() - p, 11int,
{
    p_ternary(ts, p)
}

#[verifier::opaque]
pub open spec fn p_ternary(ts: Seq<SpecToken>, p: int) -> PResult<SpecExpr>
    decreases ts.len() - p, 10int,
{
    match p_or(ts, p) {
        Err(e) => Err(e),
        Ok((c, p1)) => if check(ts, p1, SpecTokenKind::Question) {
            if p <= p1 {
                match p_expr(ts, p1 + 1) {
                    Err(e) => Err(e),
                    Ok((t, p3)) => match expect(ts, p3, SpecTokenKind::Colon) {
                        Err(e) => Err(e),
                        Ok(p4) => if moved(ts, p, p4) {
                            match p_expr(ts, p4) {
                                Err(e) => Err(e),
                                Ok((el, p5)) => Ok(
                                    (
                                        SpecExpr::Ternary {
                                            cond: Box::new(c),
                                            then_expr: Box::new(t),
                                            else_expr: Box::new(el),
                                        },
                                        p5,
                                    ),
                                ),
                            }
                        } else {
                            stalled()
                        },
                    },
                }
            } else {
                stalled()
            }
        } else {
            Ok((c, p1))
        },
    }
}

/// The operator of this level that the token kind at `p` stands for.
pub open spec fn or_op(ts: Seq<SpecToken>, p: int) -> Option<BinOp> {
    match peek_kind(ts, p) {
        Some(SpecTokenKind::OrOr) => Some(BinOp::Or),
        _ => None,
    }
}

#[verifier::opaque]
pub open spec fn p_or(ts: Seq<SpecToken>, p: int) -> PResult<SpecExpr>
    decreases ts.len() - p, 9int,
{
    match p_and(ts, p) {
        Err(e) => Err(e),
        Ok((e, p1)) => if p <= p1 <= ts.len() {
            or_rest(ts, p1, e)
        } else {
            stalled()
        },
    }
}

/// Further operands of this level, folded to the left onto `lhs`.
#[verifier::opaque]
pub open spec fn or_rest(ts: Seq<SpecToken>, p: int, lhs: SpecExpr) -> PResult<SpecExpr>
    decreases ts.len() - p, 8int,
{
    match or_op(ts, p) {
        Some(op) => match p_and(ts, p + 1) {
            Err(e) => Err(e),
            Ok((rhs, p2)) => if moved(ts, p, p2) {
                or_rest(
                    ts,
                    p2,
                    SpecExpr::Binary { op, left: Box::new(lhs), right: Box::new(rhs) },
                )
            } else {
                stalled()
            },
        },
        None => Ok((lhs, p)),
    }
}

/// The operator of this level that the token kind at `p` stands for.
pub open spec fn and_op(ts: Seq<SpecToken>, p: int) -> Option<BinOp> {
    match peek_kind(ts, p) {
        Some(SpecTokenKind::AndAnd) => Some(BinOp::And),
        _ => None,
    }
}

#[verifier::opaque]
pub open spec fn p_and(ts: Seq<SpecToken>, p: int) -> PResult<SpecExpr>
    decreases ts.len() - p, 8int,
{
    match p_equality(ts, p) {
        Err(e) => Err(e),
        Ok((e, p1)) => if p <= p1 <= ts.len() {
            and_rest(ts, p1, e)
        } else {
            stalled()
        },
    }
}

/// Further operands of this level, folded to the left onto `lhs`.
#[verifier::opaque]
pub open spec fn and_rest(ts: Seq<SpecToken>, p: int, lhs: SpecExpr) -> PResult<SpecExpr>
    decreases ts.len() - p, 7int,
{
    match and_op(ts, p) {
        Some(op) => match p_equality(ts, p + 1) {
            Err(e) => Err(e),
            Ok((rhs, p2)) => if moved(ts, p, p2) {
                and_rest(
                    ts,
                    p2,
                    SpecExpr::Binary { op, left: Box::new(lhs), right: Box::new(rhs) },
                )
            } else {
                stalled()
            },
        },
        None => Ok((lhs, p)),
    }
}

/// The operator of this level that the token kind at `p` stands for.
pub open spec fn equality_op(ts: Seq<SpecToken>, p: int) -> Option<BinOp> {
    match peek_kind(ts, p) {
        Some(SpecTokenKind::EqualEqual) => Some(BinOp::Equal),
        Some(SpecTokenKind::BangEqual) => Some(BinOp::NotEqual),
        _ => None,
    }
}

#[verifier::opaque]
pub open spec fn p_equality(ts: Seq<SpecToken>, p: int) -> PResult<SpecExpr>
    decreases ts.len() - p, 7int,
{
    match p_comparison(ts, p) {
        Err(e) => Err(e),
        Ok((e, p1)) => if p <= p1 <= ts.len() {
            equality_rest(ts, p1, e)
        } else {
            stalled()
        },
    }
}

/// Further operands of this level, folded to the left onto `lhs`.
#[verifier::opaque]
pub open spec fn equality_rest(ts: Seq<SpecToken>, p: int, lhs: SpecExpr) -> PResult<SpecExpr>
    decreases ts.len() - p, 6int,
{
    match equality_op(ts, p) {
        Some(op) => match p_comparison(ts, p + 1) {
            Err(e) => Err(e),
            Ok((rhs, p2)) => if moved(ts, p, p2) {
                equality_rest(
                    ts,
                    p2,
                    SpecExpr::Binary { op, left: Box::new(lhs), right: Box::new(rhs) },
                )
            } else {
                stalled()
            },
        },
        None => Ok((lhs, p)),
    }
}

/// The operator of this level that the token kind at `p` stands for.
pub open spec fn comparison_op(ts: Seq<SpecToken>, p: int) -> Option<BinOp> {
    match peek_kind(ts, p) {
        Some(SpecTokenKind::Less) => Some(BinOp::Less),
        Some(SpecTokenKind::Greater) => Some(BinOp::Greater),
        Some(SpecTokenKind::LessEqual) => Some(BinOp::LessEqual),
        Some(SpecTokenKind::GreaterEqual) => Some(BinOp::GreaterEqual),
        _ => None,
    }
}

#[verifier::opaque]
pub open spec fn p_comparison(ts: Seq<SpecToken>, p: int) -> PResult<SpecExpr>
    decreases ts.len() - p, 6int,
{
    match p_add_sub(ts, p) {
        Err(e) => Err(e),
        Ok((e, p1)) => if p <= p1 <= ts.len() {
            comparison_rest(ts, p1, e)
        } else {
            stalled()
        },
    }
}

/// Further operands of this level, folded to the left onto `lhs`.
#[verifier::opaque]
pub open spec fn comparison_rest(ts: Seq<SpecToken>, p: int, lhs: SpecExpr) -> PResult<SpecExpr>
    decreases ts.len() - p, 5int,
{
    match comparison_op(ts, p) {
        Some(op) => match p_add_sub(ts, p + 1) {
            Err(e) => Err(e),
            Ok((rhs, p2)) => if moved(ts, p, p2) {
                comparison_rest(
                    ts,
                    p2,
                    SpecExpr::Binary { op, left: Box::new(lhs), right: Box::new(rhs) },
                )
            } else {
                stalled()
            },
        },
        None => Ok((lhs, p)),
    }
}

/// The operator of this level that the token kind at `p` stands for.
pub open spec fn add_sub_op(ts: Seq<SpecToken>, p: int) -> Option<BinOp> {
    match peek_kind(ts, p) {
        Some(SpecTokenKind::Plus) => Some(BinOp::Add),
        Some(SpecTokenKind::Minus) => Some(BinOp::Sub),
        _ => None,
    }
}

#[verifier::opaque]
pub open spec fn p_add_sub(ts: Seq<SpecToken>, p: int) -> PResult<SpecExpr>
    decreases ts.len() - p, 5int,
{
    match p_mul_div(ts, p) {
        Err(e) => Err(e),
        Ok((e, p1)) => if p <= p1 <= ts.len() {
            add_sub_rest(ts, p1, e)
        } else {
            stalled()
        },
    }
}

/// Further operands of this level, folded to the left onto `lhs`.
#[verifier::opaque]
pub open spec fn add_sub_rest(ts: Seq<SpecToken>, p: int, lhs: SpecExpr) -> PResult<SpecExpr>
    decreases ts.len() - p, 4int,
{
    match add_sub_op(ts, p) {
        Some(op) => match p_mul_div(ts, p + 1) {
            Err(e) => Err(e),
            Ok((rhs, p2)) => if moved(ts, p, p2) {
                add_sub_rest(
                    ts,
                    p2,
                    SpecExpr::Binary { op, left: Box::new(lhs), right: Box::new(rhs) },
                )
            } else {
                stalled()
            },
        },
        None => Ok((lhs, p)),
    }
}

/// The operator of this level that the token kind at `p` stands for.
pub open spec fn mul_div_op(ts: Seq<SpecToken>, p: int) -> Option<BinOp> {
    match peek_kind(ts, p) {
        Some(SpecTokenKind::Star) => Some(BinOp::Mul),
        Some(SpecTokenKind::Slash) => Some(BinOp::Div),
        Some(SpecTokenKind::Percent) => Some(BinOp::Mod),
        _ => None,
    }
}

#[verifier::opaque]
pub open spec fn p_mul_div(ts: Seq<SpecToken>, p: int) -> PResult<SpecExpr>
    decreases ts.len() - p, 4int,
{
    match p_unary(ts, p) {
        Err(e) => Err(e),
        Ok((e, p1)) => if p <= p1 <= ts.len() {
            mul_div_rest(ts, p1, e)
        } else {
            stalled()
        },
    }
}

/// Further operands of this level, folded to the left onto `lhs`.
#[verifier::opaque]
pub open spec fn mul_div_rest(ts: Seq<SpecToken>, p: int, lhs: SpecExpr) -> PResult<SpecExpr>
    decreases ts.len() - p, 3int,
{
    match mul_div_op(ts, p) {
        Some(op) => match p_unary(ts, p + 1) {
            Err(e) => Err(e),
            Ok((rhs, p2)) => if moved(ts, p, p2) {
                mul_div_rest(
                    ts,
                    p2,
                    SpecExpr::Binary { op, left: Box::new(lhs), right: Box::new(rhs) },
                )
            } else {
                stalled()
            },
        },
        None => Ok((lhs, p)),
    }
}
/// The prefix operator that the token kind at `p` stands for.
pub open spec fn prefix_op(ts: Seq<SpecToken>, p: int) -> Option<UnaryOp> {
    match peek_kind(ts, p) {
        Some(SpecTokenKind::Minus) => Some(UnaryOp::Neg),
        Some(SpecTokenKind::Bang) => Some(UnaryOp::Not),
        Some(SpecTokenKind::PlusPlus) => Some(UnaryOp::PreInc),
        Some(SpecTokenKind::MinusMinus) => Some(UnaryOp::PreDec),
        _ => None,
    }
}

#[verifier::opaque]
pub open spec fn p_unary(ts: Seq<SpecToken>, p: int) -> PResult<SpecExpr>
    decreases ts.len() - p, 3int,
{
    match prefix_op(ts, p) {
        Some(op) => match p_unary(ts, p + 1) {
            Err(e) => Err(e),
            Ok((e, p2)) => Ok((SpecExpr::Unary { op, expr: Box::new(e) }, p2)),
        },
        None => p_postfix(ts, p),
    }
}

/// The postfix operator that the token kind at `p` stands for.
pub open spec fn postfix_op(ts: Seq<SpecToken>, p: int) -> Option<UnaryOp> {
    match peek_kind(ts, p) {
        Some(SpecTokenKind::PlusPlus) => Some(UnaryOp::PostInc),
        Some(SpecTokenKind::MinusMinus) => Some(UnaryOp::PostDec),
        _ => None,
    }
}

#[verifier::opaque]
pub open spec fn p_postfix(ts: Seq<SpecToken>, p: int) -> PResult<SpecExpr>
    decreases ts.len() - p, 2int,
{
    match p_primary(ts, p) {
        Err(e) => Err(e),
        Ok((e, p1)) => if p <= p1 <= ts.len() {
            postfix_rest(ts, p1, e)
        } else {
            stalled()
        },
    }
}

#[verifier::opaque]
pub open spec fn postfix_rest(ts: Seq<SpecToken>, p: int, e: SpecExpr) -> PResult<SpecExpr>
    decreases ts.len() - p, 1int,
{
    match postfix_op(ts, p) {
        Some(op) => postfix_rest(ts, p + 1, SpecExpr::Unary { op, expr: Box::new(e) }),
        None => Ok((e, p)),
    }
}

/// The arguments of a call, separated by commas.
#[verifier::opaque]
pub open spec fn p_args(ts: Seq<SpecToken>, p: int) -> PResult<Seq<SpecExpr>>
    decreases ts.len() - p, 12int,
{
    match p_expr(ts, p) {
        Err(e) => Err(e),
        Ok((a, p1)) => if check(ts, p1, SpecTokenKind::Comma) {
            if p <= p1 {
                match p_args(ts, p1 + 1) {
                    Err(e) => Err(e),
                    Ok((rest, p2)) => Ok((seq![a] + rest, p2)),
                }
            } else {
                stalled()
            }
        } else {
            Ok((seq![a], p1))
        },
    }
}

/// After the name `name`, which ends before `p1`: a call with its arguments in brackets, or
/// else the variable of that name.
#[verifier::opaque]
pub open spec fn p_call_or_var(ts: Seq<SpecToken>, name: Seq<char>, p1: int) -> PResult<SpecExpr>
    decreases ts.len() - p1, 0int,
{
    if check(ts, p1, SpecTokenKind::LParen) {
        let p2 = p1 + 1;
        let args = if check(ts, p2, SpecTokenKind::RParen) {
            Ok((Seq::<SpecExpr>::empty(), p2))
        } else {
            p_args(ts, p2)
        };
        match args {
            Err(e) => Err(e),
            Ok((args, p3)) => match expect(ts, p3, SpecTokenKind::RParen) {
                Err(e) => Err(e),
                Ok(p4) => Ok((SpecExpr::Call { name, args }, p4)),
            },
        }
    } else {
        Ok((SpecExpr::Var(name), p1))
    }
}

#[verifier::opaque]
pub open spec fn p_primary(ts: Seq<SpecToken>, p: int) -> PResult<SpecExpr>
    decreases ts.len() - p, 1int,
{
    let q = skip_comments(ts, p);
    match kind_at(ts, q) {
        SpecTokenKind::Number(n) => Ok((SpecExpr::Number(n), q + 1)),
        SpecTokenKind::FloatLit(f) => Ok((SpecExpr::Float(f), q + 1)),
        SpecTokenKind::True => Ok((SpecExpr::BoolLiteral(true), q + 1)),
        SpecTokenKind::False => Ok((SpecExpr::BoolLiteral(false), q + 1)),
        SpecTokenKind::StringLit(s) => Ok((SpecExpr::StringLiteral(s), q + 1)),
        SpecTokenKind::CharLit(c) => Ok((SpecExpr::CharLiteral(c), q + 1)),
        SpecTokenKind::Ident(name) => p_call_or_var(ts, name, q + 1),
        SpecTokenKind::LParen => match p_expr(ts, q + 1) {
            Err(e) => Err(e),
            Ok((e, p1)) => match expect(ts, p1, SpecTokenKind::RParen) {
                Err(e) => Err(e),
                Ok(p2) => Ok((SpecExpr::Paren(Box::new(e)), p2)),
            },
        },
        _ => Err(error_at_token("expected expression"@, tok_at(ts, q))),
    }
}

// ---------------------------------------------------------------------------
// Statements.

/// Whether the statement list of a block (or, in a switch, of a case) ends at `p`.
pub open spec fn list_ends(ts: Seq<SpecToken>, p: int, in_switch: bool) -> bool {
    if in_switch {
        check(ts, p, SpecTokenKind::Case) || check(ts, p, SpecTokenKind::Default) || check(
            ts,
            p,
            SpecTokenKind::RBrace,
        )
    } else {
        check(ts, p, SpecTokenKind::RBrace)
    }
}

#[verifier::opaque]
pub open spec fn p_stmt_list(ts: Seq<SpecToken>, p: int, in_switch: bool) -> PResult<Seq<SpecStmt>>
    decreases ts.len() - p, 15int,
{
    if list_ends(ts, p, in_switch) {
        Ok((Seq::empty(), p))
    } else {
        match p_stmt(ts, p) {
            Err(e) => Err(e),
            Ok((s, p1)) => if moved(ts, p, p1) {
                match p_stmt_list(ts, p1, in_switch) {
                    Err(e) => Err(e),
                    Ok((rest, p2)) => Ok((seq![s] + rest, p2)),
                }
            } else {
                stalled()
            },
        }
    }
}

/// A statement that is an expression followed by `;`.
#[verifier::opaque]
pub open spec fn p_expr_stmt(ts: Seq<SpecToken>, p: int) -> PResult<SpecStmt>
    decreases ts.len() - p, 13int,
{
    match p_expr(ts, p) {
        Err(e) => Err(e),
        Ok((e, p1)) => match expect(ts, p1, SpecTokenKind::Semicolon) {
            Err(err) => Err(err),
            Ok(p2) => Ok((SpecStmt::ExprStmt(e), p2)),
        },
    }
}

pub open spec fn unexpected_token<T>(ts: Seq<SpecToken>, p: int) -> PResult<T> {
    let t = tok_at(ts, skip_comments(ts, p));
    Err(error_at_token("unexpected token '"@ + spec_kind_debug(t.kind) + "' in statement"@, t))
}

#[verifier::opaque]
pub open spec fn p_stmt(ts: Seq<SpecToken>, p: int) -> PResult<SpecStmt>
    decreases ts.len() - p, 14int,
{
    match peek_kind(ts, p) {
        Some(k) => if decl_type_of_kind(k) is Some {
            p_var_decl(ts, p)
        } else {
            match k {
                SpecTokenKind::Return => if check(ts, p + 1, SpecTokenKind::Semicolon) {
                    Ok((SpecStmt::Return(None), p + 2))
                } else {
                    match p_expr(ts, p + 1) {
                        Err(e) => Err(e),
                        Ok((e, p2)) => match expect(ts, p2, SpecTokenKind::Semicolon) {
                            Err(err) => Err(err),
                            Ok(p3) => Ok((SpecStmt::Return(Some(e)), p3)),
                        },
                    }
                },
                SpecTokenKind::If => p_if(ts, p),
                SpecTokenKind::While => p_while(ts, p),
                SpecTokenKind::DoWhile => p_do_while(ts, p),
                SpecTokenKind::For => p_for(ts, p),
                SpecTokenKind::Switch => p_switch(ts, p),
                SpecTokenKind::Break => match expect(ts, p + 1, SpecTokenKind::Semicolon) {
                    Err(e) => Err(e),
                    Ok(p2) => Ok((SpecStmt::Break, p2)),
                },
                SpecTokenKind::Continue => match expect(ts, p + 1, SpecTokenKind::Semicolon) {
                    Err(e) => Err(e),
                    Ok(p2) => Ok((SpecStmt::Continue, p2)),
                },
                SpecTokenKind::Ident(_) => if lookahead_assign(ts, p) {
                    p_assign(ts, p)
                } else {
                    p_expr_stmt(ts, p)
                },
                _ => unexpected_token(ts, p),
            }
        },
        None => unexpected_token(ts, p),
    }
}

/// `name = expr`, without the `;`: an assignment, or a `for` step.
#[verifier::opaque]
pub open spec fn p_assign_core(ts: Seq<SpecToken>, p: int) -> PResult<SpecStmt>
    decreases ts.len() - p, 12int,
{
    let q = skip_comments(ts, p);
    match kind_at(ts, q) {
        SpecTokenKind::Ident(name) => match expect(ts, q + 1, SpecTokenKind::Equal) {
            Err(e) => Err(e),
            Ok(p2) => match p_expr(ts, p2) {
                Err(e) => Err(e),
                Ok((e, p3)) => Ok((SpecStmt::Assign { name, expr: e }, p3)),
            },
        },
        _ => Err(error_at_token("expected identifier in assignment"@, tok_at(ts, q))),
    }
}

#[verifier::opaque]
pub open spec fn p_assign(ts: Seq<SpecToken>, p: int) -> PResult<SpecStmt>
    decreases ts.len() - p, 13int,
{
    match p_assign_core(ts, p) {
        Err(e) => Err(e),
        Ok((s, p1)) => match expect(ts, p1, SpecTokenKind::Semicolon) {
            Err(e) => Err(e),
            Ok(p2) => Ok((s, p2)),
        },
    }
}

/// `{ statements }`.
#[verifier::opaque]
pub open spec fn p_block(ts: Seq<SpecToken>, p: int) -> PResult<Seq<SpecStmt>>
    decreases ts.len() - p, 16int,
{
    match expect(ts, p, SpecTokenKind::LBrace) {
        Err(e) => Err(e),
        Ok(p1) => match p_stmt_list(ts, p1, false) {
            Err(e) => Err(e),
            Ok((body, p2)) => match expect(ts, p2, SpecTokenKind::RBrace) {
                Err(e) => Err(e),
                Ok(p3) => Ok((body, p3)),
            },
        },
    }
}

/// `( expr )`.
#[verifier::opaque]
pub open spec fn p_paren_cond(ts: Seq<SpecToken>, p: int) -> PResult<SpecExpr>
    decreases ts.len() - p, 12int,
{
    match expect(ts, p, SpecTokenKind::LParen) {
        Err(e) => Err(e),
        Ok(p1) => match p_expr(ts, p1) {
            Err(e) => Err(e),
            Ok((c, p2)) => match expect(ts, p2, SpecTokenKind::RParen) {
                Err(e) => Err(e),
                Ok(p3) => Ok((c, p3)),
            },
        },
    }
}

#[verifier::opaque]
pub open spec fn p_if(ts: Seq<SpecToken>, p: int) -> PResult<SpecStmt>
    decreases ts.len() - p, 13int,
{
    match expect(ts, p, SpecTokenKind::If) {
        Err(e) => Err(e),
        Ok(p1) => match p_paren_cond(ts, p1) {
            Err(e) => Err(e),
            Ok((cond, p2)) => if moved(ts, p, p2) {
                match p_block(ts, p2) {
                    Err(e) => Err(e),
                    Ok((then_body, p3)) => if check(ts, p3, SpecTokenKind::Else) {
                        if moved(ts, p, p3 + 1) {
                            if check(ts, p3 + 1, SpecTokenKind::If) {
                                match p_if(ts, p3 + 1) {
                                    Err(e) => Err(e),
                                    Ok((s, p4)) => Ok(
                                        (SpecStmt::If { cond, then_body, else_body: seq![s] }, p4),
                                    ),
                                }
                            } else {
                                match p_block(ts, p3 + 1) {
                                    Err(e) => Err(e),
                                    Ok((else_body, p4)) => Ok(
                                        (SpecStmt::If { cond, then_body, else_body }, p4),
                                    ),
                                }
                            }
                        } else {
                            stalled()
                        }
                    } else {
                        Ok((SpecStmt::If { cond, then_body, else_body: Seq::empty() }, p3))
                    },
                }
            } else {
                stalled()
            },
        },
    }
}

#[verifier::opaque]
pub open spec fn p_while(ts: Seq<SpecToken>, p: int) -> PResult<SpecStmt>
    decreases ts.len() - p, 13int,
{
    match expect(ts, p, SpecTokenKind::While) {
        Err(e) => Err(e),
        Ok(p1) => match p_paren_cond(ts, p1) {
            Err(e) => Err(e),
            Ok((cond, p2)) => if moved(ts, p, p2) {
                match p_block(ts, p2) {
                    Err(e) => Err(e),
                    Ok((body, p3)) => Ok((SpecStmt::While { cond, body }, p3)),
                }
            } else {
                stalled()
            },
        },
    }
}

#[verifier::opaque]
pub open spec fn p_do_while(ts: Seq<SpecToken>, p: int) -> PResult<SpecStmt>
    decreases ts.len() - p, 13int,
{
    match expect(ts, p, SpecTokenKind::DoWhile) {
        Err(e) => Err(e),
        Ok(p1) => match p_block(ts, p1) {
            Err(e) => Err(e),
            Ok((body, p2)) => match expect(ts, p2, SpecTokenKind::While) {
                Err(e) => Err(e),
                Ok(p3) => if moved(ts, p, p3) {
                    match p_paren_cond(ts, p3) {
                        Err(e) => Err(e),
                        Ok((cond, p4)) => match expect(ts, p4, SpecTokenKind::Semicolon) {
                            Err(e) => Err(e),
                            Ok(p5) => Ok((SpecStmt::DoWhile { body, cond }, p5)),
                        },
                    }
                } else {
                    stalled()
                },
            },
        },
    }
}

/// The first part of a `for` header: a declaration or an assignment, with its `;`.
#[verifier::opaque]
pub open spec fn p_for_init(ts: Seq<SpecToken>, p: int) -> PResult<SpecStmt>
    decreases ts.len() - p, 14int,
{
    match peek_kind(ts, p) {
        Some(k) => if decl_type_of_kind(k) is Some {
            p_var_decl(ts, p)
        } else if k is Ident {
            p_assign(ts, p)
        } else {
            Err(error_at_token("invalid for-loop init"@, tok_at(ts, skip_comments(ts, p))))
        },
        None => Err(error_at_token("invalid for-loop init"@, tok_at(ts, skip_comments(ts, p)))),
    }
}

/// The last part of a `for` header: an assignment or an expression, without `;`.
#[verifier::opaque]
pub open spec fn p_for_step(ts: Seq<SpecToken>, p: int) -> PResult<SpecStmt>
    decreases ts.len() - p, 13int,
{
    if lookahead_assign(ts, p) {
        p_assign_core(ts, p)
    } else {
        match p_expr(ts, p) {
            Err(e) => Err(e),
            Ok((e, p1)) => Ok((SpecStmt::ExprStmt(e), p1)),
        }
    }
}

#[verifier::opaque]
pub open spec fn p_for(ts: Seq<SpecToken>, p: int) -> PResult<SpecStmt>
    decreases ts.len() - p, 13int,
{
    match expect(ts, p, SpecTokenKind::For) {
        Err(e) => Err(e),
        Ok(p1) => match expect(ts, p1, SpecTokenKind::LParen) {
            Err(e) => Err(e),
            Ok(p2) => match p_for_init(ts, p2) {
                Err(e) => Err(e),
                Ok((init, p3)) => if moved(ts, p, p3) {
                    match p_expr(ts, p3) {
                        Err(e) => Err(e),
                        Ok((cond, p4)) => match expect(ts, p4, SpecTokenKind::Semicolon) {
                            Err(e) => Err(e),
                            Ok(p5) => if moved(ts, p, p5) {
                                match p_for_step(ts, p5) {
                                    Err(e) => Err(e),
                                    Ok((step, p6)) => match expect(ts, p6, SpecTokenKind::RParen) {
                                        Err(e) => Err(e),
                                        Ok(p7) => if moved(ts, p, p7) {
                                            match p_block(ts, p7) {
                                                Err(e) => Err(e),
                                                Ok((body, p8)) => Ok(
                                                    (
                                                        SpecStmt::For {
                                                            init: Box::new(init),
                                                            cond,
                                                            step: Box::new(step),
                                                            body,
                                                        },
                                                        p8,
                                                    ),
                                                ),
                                            }
                                        } else {
                                            stalled()
                                        },
                                    },
                                }
                            } else {
                                stalled()
                            },
                        },
                    }
                } else {
                    stalled()
                },
            },
        },
    }
}

/// The `case` and `default` arms of a switch, up to its closing brace.
#[verifier::opaque]
pub open spec fn p_cases(ts: Seq<SpecToken>, p: int) -> PResult<
    Seq<(Option<SpecExpr>, Seq<SpecStmt>)>,
>
    decreases ts.len() - p, 15int,
{
    if check(ts, p, SpecTokenKind::RBrace) {
        Ok((Seq::empty(), p))
    } else if check(ts, p, SpecTokenKind::Case) || check(ts, p, SpecTokenKind::Default) {
        let label = if check(ts, p, SpecTokenKind::Case) {
            match p_expr(ts, p + 1) {
                Err(e) => Err(e),
                Ok((v, p1)) => Ok((Some(v), p1)),
            }
        } else {
            Ok((None, p + 1))
        };
        match label {
            Err(e) => Err(e),
            Ok((v, p1)) => match expect(ts, p1, SpecTokenKind::Colon) {
                Err(e) => Err(e),
                Ok(p2) => if moved(ts, p, p2) {
                    match p_stmt_list(ts, p2, true) {
                        Err(e) => Err(e),
                        Ok((body, p3)) => if moved(ts, p, p3) {
                            match p_cases(ts, p3) {
                                Err(e) => Err(e),
                                Ok((rest, p4)) => Ok((seq![(v, body)] + rest, p4)),
                            }
                        } else {
                            stalled()
                        },
                    }
                } else {
                    stalled()
                },
            },
        }
    } else {
        Err(
            error_at_token(
                "expected 'case' or 'default' in switch"@,
                tok_at(ts, skip_comments(ts, p)),
            ),
        )
    }
}

#[verifier::opaque]
pub open spec fn p_switch(ts: Seq<SpecToken>, p: int) -> PResult<SpecStmt>
    decreases ts.len() - p, 13int,
{
    match expect(ts, p, SpecTokenKind::Switch) {
        Err(e) => Err(e),
        Ok(p1) => match p_paren_cond(ts, p1) {
            Err(e) => Err(e),
            Ok((expr, p2)) => match expect(ts, p2, SpecTokenKind::LBrace) {
                Err(e) => Err(e),
                Ok(p3) => if moved(ts, p, p3) {
                    match p_cases(ts, p3) {
                        Err(e) => Err(e),
                        Ok((cases, p4)) => match expect(ts, p4, SpecTokenKind::RBrace) {
                            Err(e) => Err(e),
                            Ok(p5) => Ok((SpecStmt::Switch { expr, cases }, p5)),
                        },
                    }
                } else {
                    stalled()
                },
            },
        },
    }
}

#[verifier::opaque]
pub open spec fn p_var_decl(ts: Seq<SpecToken>, p: int) -> PResult<SpecStmt>
    decreases ts.len() - p, 13int,
{
    let decl = match peek_kind(ts, p) {
        Some(k) => decl_type_of_kind(k),
        None => None,
    };
    match decl {
        None => Err(error_at_token("expected type or 'var'"@, tok_at(ts, skip_comments(ts, p)))),
        Some(explicit_type) => {
            let q = skip_comments(ts, p + 1);
            match kind_at(ts, q) {
                SpecTokenKind::Ident(name) => match expect(ts, q + 1, SpecTokenKind::Equal) {
                    Err(e) => Err(e),
                    Ok(p2) => match p_expr(ts, p2) {
                        Err(e) => Err(e),
                        Ok((init, p3)) => match expect(ts, p3, SpecTokenKind::Semicolon) {
                            Err(e) => Err(e),
                            Ok(p4) => Ok((SpecStmt::VarDecl { explicit_type, name, init }, p4)),
                        },
                    },
                },
                _ => Err(error_at_token("expected variable name"@, tok_at(ts, q))),
            }
        },
    }
}

// ---------------------------------------------------------------------------
// Functions and programs.

/// Why parsing a program stopped: a syntax error, or a statement in a function body that
/// consumed no token (a fault of the parser itself, which statements never show).
pub enum SpecParseFailure {
    Syntax(SpecCompileError),
    NoProgress,
}

pub type FResult<T> = Result<(T, int), SpecParseFailure>;

/// The parameters of a function, separated by commas.
pub open spec fn p_params(ts: Seq<SpecToken>, p: int) -> PResult<Seq<SpecParam>>
    decreases ts.len() - p,
{
    match p_type(ts, p) {
        Err(e) => Err(e),
        Ok((ty, p1)) => {
            let q = skip_comments(ts, p1);
            match kind_at(ts, q) {
                SpecTokenKind::Ident(name) => {
                    let param = SpecParam { name, ty };
                    if check(ts, q + 1, SpecTokenKind::Comma) {
                        if moved(ts, p, q + 2) {
                            match p_params(ts, q + 2) {
                                Err(e) => Err(e),
                                Ok((rest, p2)) => Ok((seq![param] + rest, p2)),
                            }
                        } else {
                            stalled()
                        }
                    } else {
                        Ok((seq![param], q + 1))
                    }
                },
                _ => Err(error_at_token("expected parameter name"@, tok_at(ts, q))),
            }
        },
    }
}

/// The statements of a function body, up to its closing brace; empty statements are left out.
pub open spec fn p_body(ts: Seq<SpecToken>, p: int) -> FResult<Seq<SpecStmt>>
    decreases ts.len() - p,
{
    if check(ts, p, SpecTokenKind::RBrace) {
        Ok((Seq::empty(), p))
    } else {
        let q = skip_comments(ts, p);
        match p_stmt(ts, q) {
            Err(e) => Err(SpecParseFailure::Syntax(e)),
            Ok((s, p1)) => {
                let q1 = skip_comments(ts, p1);
                if q1 == q {
                    Err(SpecParseFailure::NoProgress)
                } else if moved(ts, p, q1) {
                    match p_body(ts, q1) {
                        Err(e) => Err(e),
                        Ok((rest, p2)) => Ok(
                            (
                                if s is Empty {
                                    rest
                                } else {
                                    seq![s] + rest
                                },
                                p2,
                            ),
                        ),
                    }
                } else {
                    Err(SpecParseFailure::Syntax(spec_error_at("no progress"@, 0, 0)))
                }
            },
        }
    }
}

pub open spec fn syntax<T>(r: PResult<T>) -> FResult<T> {
    match r {
        Ok(v) => Ok(v),
        Err(e) => Err(SpecParseFailure::Syntax(e)),
    }
}

pub open spec fn p_function(ts: Seq<SpecToken>, p: int) -> FResult<SpecFunction> {
    match p_visibility(ts, p) {
        Err(e) => Err(SpecParseFailure::Syntax(e)),
        Ok((visibility, p1)) => match expect(ts, p1, SpecTokenKind::Funct) {
            Err(e) => Err(SpecParseFailure::Syntax(e)),
            Ok(p2) => match p_type(ts, p2) {
                Err(e) => Err(SpecParseFailure::Syntax(e)),
                Ok((return_type, p3)) => {
                    let q = skip_comments(ts, p3);
                    match kind_at(ts, q) {
                        SpecTokenKind::Ident(name) => match expect(
                            ts,
                            q + 1,
                            SpecTokenKind::LParen,
                        ) {
                            Err(e) => Err(SpecParseFailure::Syntax(e)),
                            Ok(p4) => {
                                let params = if check(ts, p4, SpecTokenKind::RParen) {
                                    Ok((Seq::<SpecParam>::empty(), p4))
                                } else {
                                    p_params(ts, p4)
                                };
                                match params {
                                    Err(e) => Err(SpecParseFailure::Syntax(e)),
                                    Ok((params, p5)) => match expect(ts, p5, SpecTokenKind::RParen) {
                                        Err(e) => Err(SpecParseFailure::Syntax(e)),
                                        Ok(p6) => match expect(ts, p6, SpecTokenKind::LBrace) {
                                            Err(e) => Err(SpecParseFailure::Syntax(e)),
                                            Ok(p7) => match p_body(ts, p7) {
                                                Err(e) => Err(e),
                                                Ok((body, p8)) => match expect(
                                                    ts,
                                                    p8,
                                                    SpecTokenKind::RBrace,
                                                ) {
                                                    Err(e) => Err(SpecParseFailure::Syntax(e)),
                                                    Ok(p9) => Ok(
                                                        (
                                                            SpecFunction {
                                                                name,
                                                                visibility,
                                                                return_type,
                                                                params,
                                                                body,
                                                            },
                                                            p9,
                                                        ),
                                                    ),
                                                },
                                            },
                                        },
                                    },
                                }
                            },
                        },
                        _ => Err(
                            SpecParseFailure::Syntax(
                                error_at_token("expected function name"@, tok_at(ts, q)),
                            ),
                        ),
                    }
                },
            },
        },
    }
}

/// The functions of a program, up to the end-of-input token.
pub open spec fn p_program(ts: Seq<SpecToken>, p: int) -> Result<Seq<SpecFunction>, SpecParseFailure>
    decreases ts.len() - p,
{
    let q = skip_comments(ts, p);
    if kind_at(ts, q) == SpecTokenKind::EOF {
        Ok(Seq::empty())
    } else {
        match p_function(ts, q) {
            Err(e) => Err(e),
            Ok((f, p1)) => if moved(ts, p, p1) {
                match p_program(ts, p1) {
                    Err(e) => Err(e),
                    Ok(fs) => Ok(seq![f] + fs),
                }
            } else {
                Err(SpecParseFailure::Syntax(spec_error_at("no progress"@, 0, 0)))
            },
        }
    }
}

} // verus!
