use vstd::prelude::*;
use crate::ast::{
    BinOp, Expr, FunctionDecl, Param, Program, SpecExpr, SpecStmt, SpecToken, SpecTokenKind,
    Stmt, Token, TokenKind, TypeName, UnaryOp, Visibility, exprs_view, stmts_view, cases_view,
    params_view, tokens_view, functions_view, SpecFunction, SpecParam, lemma_exprs_view_push,
    lemma_stmts_view_push, lemma_cases_view_push, opt_expr_view,
};
use crate::cursor::{adv, check, kind_at, parsable, peek_kind, skip_comments, tok_at};
use crate::error::{CompileError, SpecCompileError};
use crate::lexer::{LexState, lemma_tokens_end_with_eof, spec_tokenize};
use crate::grammar::{
    PResult, SpecParseFailure, and_op, and_rest, add_sub_op, add_sub_rest, comparison_op,
    comparison_rest, equality_op, equality_rest, error_at_token, expect, lookahead_assign,
    mul_div_op, mul_div_rest, or_op, or_rest, p_add_sub, p_and, p_args, p_assign, p_call_or_var,
    p_assign_core, p_block, p_body, p_cases, p_comparison, p_do_while, p_equality, p_expr,
    p_expr_stmt, p_for, p_for_init, p_for_step, p_function, p_if, p_mul_div, p_or, p_params,
    p_paren_cond, p_postfix, p_primary, p_program, p_stmt, p_stmt_list, p_switch, p_ternary,
    p_type, p_unary, p_var_decl, p_visibility, p_while, postfix_op, postfix_rest, prefix_op,
    spec_kind_debug,
};
use crate::text::{debug_char, debug_str, push_chars, push_i64_decimal, push_str, string_of};
use vstd::string::StringExecFns;

verus! {

broadcast use {
    vstd::std_specs::control_flow::group_control_flow_axioms,
    crate::cursor::lemma_skip_comments_bounds,
    crate::cursor::lemma_tok_kind,
};

/// A copy of a token kind.
pub fn clone_kind(k: &TokenKind) -> (r: TokenKind)
    ensures
        r@ == k@,
{
    match k {
        TokenKind::Public => TokenKind::Public,
        TokenKind::Private => TokenKind::Private,
        TokenKind::Protected => TokenKind::Protected,
        TokenKind::Funct => TokenKind::Funct,
        TokenKind::Var => TokenKind::Var,
        TokenKind::Int => TokenKind::Int,
        TokenKind::Bool => TokenKind::Bool,
        TokenKind::Void => TokenKind::Void,
        TokenKind::StringType => TokenKind::StringType,
        TokenKind::Float => TokenKind::Float,
        TokenKind::Double => TokenKind::Double,
        TokenKind::CharType => TokenKind::CharType,
        TokenKind::If => TokenKind::If,
        TokenKind::Else => TokenKind::Else,
        TokenKind::While => TokenKind::While,
        TokenKind::DoWhile => TokenKind::DoWhile,
        TokenKind::For => TokenKind::For,
        TokenKind::Switch => TokenKind::Switch,
        TokenKind::Case => TokenKind::Case,
        TokenKind::Default => TokenKind::Default,
        TokenKind::Break => TokenKind::Break,
        TokenKind::Continue => TokenKind::Continue,
        TokenKind::Return => TokenKind::Return,
        TokenKind::True => TokenKind::True,
        TokenKind::False => TokenKind::False,
        TokenKind::Ident(s) => TokenKind::Ident(s.clone()),
        TokenKind::Number(v) => TokenKind::Number(*v),
        TokenKind::FloatLit(s) => TokenKind::FloatLit(s.clone()),
        TokenKind::StringLit(s) => TokenKind::StringLit(s.clone()),
        TokenKind::CharLit(v) => TokenKind::CharLit(*v),
        TokenKind::LParen => TokenKind::LParen,
        TokenKind::RParen => TokenKind::RParen,
        TokenKind::LBrace => TokenKind::LBrace,
        TokenKind::RBrace => TokenKind::RBrace,
        TokenKind::LBracket => TokenKind::LBracket,
        TokenKind::RBracket => TokenKind::RBracket,
        TokenKind::Semicolon => TokenKind::Semicolon,
        TokenKind::Comma => TokenKind::Comma,
        TokenKind::Colon => TokenKind::Colon,
        TokenKind::Question => TokenKind::Question,
        TokenKind::Equal => TokenKind::Equal,
        TokenKind::Plus => TokenKind::Plus,
        TokenKind::Minus => TokenKind::Minus,
        TokenKind::Star => TokenKind::Star,
        TokenKind::Slash => TokenKind::Slash,
        TokenKind::Percent => TokenKind::Percent,
        TokenKind::Less => TokenKind::Less,
        TokenKind::Greater => TokenKind::Greater,
        TokenKind::Bang => TokenKind::Bang,
        TokenKind::EqualEqual => TokenKind::EqualEqual,
        TokenKind::BangEqual => TokenKind::BangEqual,
        TokenKind::LessEqual => TokenKind::LessEqual,
        TokenKind::GreaterEqual => TokenKind::GreaterEqual,
        TokenKind::AndAnd => TokenKind::AndAnd,
        TokenKind::OrOr => TokenKind::OrOr,
        TokenKind::PlusPlus => TokenKind::PlusPlus,
        TokenKind::MinusMinus => TokenKind::MinusMinus,
        TokenKind::Comment => TokenKind::Comment,
        TokenKind::EOF => TokenKind::EOF,
    }
}

/// Whether two token kinds are equal, payloads included.
pub fn kind_eq(a: &TokenKind, b: &TokenKind) -> (r: bool)
    ensures
        r == (a@ == b@),
{
    match (a, b) {
        (TokenKind::Public, TokenKind::Public) => true,
        (TokenKind::Private, TokenKind::Private) => true,
        (TokenKind::Protected, TokenKind::Protected) => true,
        (TokenKind::Funct, TokenKind::Funct) => true,
        (TokenKind::Var, TokenKind::Var) => true,
        (TokenKind::Int, TokenKind::Int) => true,
        (TokenKind::Bool, TokenKind::Bool) => true,
        (TokenKind::Void, TokenKind::Void) => true,
        (TokenKind::StringType, TokenKind::StringType) => true,
        (TokenKind::Float, TokenKind::Float) => true,
        (TokenKind::Double, TokenKind::Double) => true,
        (TokenKind::CharType, TokenKind::CharType) => true,
        (TokenKind::If, TokenKind::If) => true,
        (TokenKind::Else, TokenKind::Else) => true,
        (TokenKind::While, TokenKind::While) => true,
        (TokenKind::DoWhile, TokenKind::DoWhile) => true,
        (TokenKind::For, TokenKind::For) => true,
        (TokenKind::Switch, TokenKind::Switch) => true,
        (TokenKind::Case, TokenKind::Case) => true,
        (TokenKind::Default, TokenKind::Default) => true,
        (TokenKind::Break, TokenKind::Break) => true,
        (TokenKind::Continue, TokenKind::Continue) => true,
        (TokenKind::Return, TokenKind::Return) => true,
        (TokenKind::True, TokenKind::True) => true,
        (TokenKind::False, TokenKind::False) => true,
        (TokenKind::Ident(x), TokenKind::Ident(y)) => *x == *y,
        (TokenKind::Number(x), TokenKind::Number(y)) => *x == *y,
        (TokenKind::FloatLit(x), TokenKind::FloatLit(y)) => *x == *y,
        (TokenKind::StringLit(x), TokenKind::StringLit(y)) => *x == *y,
        (TokenKind::CharLit(x), TokenKind::CharLit(y)) => *x == *y,
        (TokenKind::LParen, TokenKind::LParen) => true,
        (TokenKind::RParen, TokenKind::RParen) => true,
        (TokenKind::LBrace, TokenKind::LBrace) => true,
        (TokenKind::RBrace, TokenKind::RBrace) => true,
        (TokenKind::LBracket, TokenKind::LBracket) => true,
        (TokenKind::RBracket, TokenKind::RBracket) => true,
        (TokenKind::Semicolon, TokenKind::Semicolon) => true,
        (TokenKind::Comma, TokenKind::Comma) => true,
        (TokenKind::Colon, TokenKind::Colon) => true,
        (TokenKind::Question, TokenKind::Question) => true,
        (TokenKind::Equal, TokenKind::Equal) => true,
        (TokenKind::Plus, TokenKind::Plus) => true,
        (TokenKind::Minus, TokenKind::Minus) => true,
        (TokenKind::Star, TokenKind::Star) => true,
        (TokenKind::Slash, TokenKind::Slash) => true,
        (TokenKind::Percent, TokenKind::Percent) => true,
        (TokenKind::Less, TokenKind::Less) => true,
        (TokenKind::Greater, TokenKind::Greater) => true,
        (TokenKind::Bang, TokenKind::Bang) => true,
        (TokenKind::EqualEqual, TokenKind::EqualEqual) => true,
        (TokenKind::BangEqual, TokenKind::BangEqual) => true,
        (TokenKind::LessEqual, TokenKind::LessEqual) => true,
        (TokenKind::GreaterEqual, TokenKind::GreaterEqual) => true,
        (TokenKind::AndAnd, TokenKind::AndAnd) => true,
        (TokenKind::OrOr, TokenKind::OrOr) => true,
        (TokenKind::PlusPlus, TokenKind::PlusPlus) => true,
        (TokenKind::MinusMinus, TokenKind::MinusMinus) => true,
        (TokenKind::Comment, TokenKind::Comment) => true,
        (TokenKind::EOF, TokenKind::EOF) => true,
        _ => false,
    }
}
/// The `Debug` text of a token kind.
pub fn kind_debug(k: &TokenKind) -> (r: Vec<char>)
    ensures
        r@ == spec_kind_debug(k@),
{
    let mut out: Vec<char> = Vec::new();
    match k {
        TokenKind::Public => push_str(&mut out, "Public"),
        TokenKind::Private => push_str(&mut out, "Private"),
        TokenKind::Protected => push_str(&mut out, "Protected"),
        TokenKind::Funct => push_str(&mut out, "Funct"),
        TokenKind::Var => push_str(&mut out, "Var"),
        TokenKind::Int => push_str(&mut out, "Int"),
        TokenKind::Bool => push_str(&mut out, "Bool"),
        TokenKind::Void => push_str(&mut out, "Void"),
        TokenKind::StringType => push_str(&mut out, "StringType"),
        TokenKind::Float => push_str(&mut out, "Float"),
        TokenKind::Double => push_str(&mut out, "Double"),
        TokenKind::CharType => push_str(&mut out, "CharType"),
        TokenKind::If => push_str(&mut out, "If"),
        TokenKind::Else => push_str(&mut out, "Else"),
        TokenKind::While => push_str(&mut out, "While"),
        TokenKind::DoWhile => push_str(&mut out, "DoWhile"),
        TokenKind::For => push_str(&mut out, "For"),
        TokenKind::Switch => push_str(&mut out, "Switch"),
        TokenKind::Case => push_str(&mut out, "Case"),
        TokenKind::Default => push_str(&mut out, "Default"),
        TokenKind::Break => push_str(&mut out, "Break"),
        TokenKind::Continue => push_str(&mut out, "Continue"),
        TokenKind::Return => push_str(&mut out, "Return"),
        TokenKind::True => push_str(&mut out, "True"),
        TokenKind::False => push_str(&mut out, "False"),
        TokenKind::Ident(v) => {
            push_str(&mut out, "Ident(");
            let d = debug_str(v.as_str());
            push_str(&mut out, d.as_str());
            push_str(&mut out, ")");
        },
        TokenKind::Number(v) => {
            push_str(&mut out, "Number(");
            push_i64_decimal(&mut out, *v);
            push_str(&mut out, ")");
        },
        TokenKind::FloatLit(v) => {
            push_str(&mut out, "FloatLit(");
            push_str(&mut out, v.as_str());
            push_str(&mut out, ")");
        },
        TokenKind::StringLit(v) => {
            push_str(&mut out, "StringLit(");
            let d = debug_str(v.as_str());
            push_str(&mut out, d.as_str());
            push_str(&mut out, ")");
        },
        TokenKind::CharLit(v) => {
            push_str(&mut out, "CharLit(");
            let d = debug_char(*v);
            push_str(&mut out, d.as_str());
            push_str(&mut out, ")");
        },
        TokenKind::LParen => push_str(&mut out, "LParen"),
        TokenKind::RParen => push_str(&mut out, "RParen"),
        TokenKind::LBrace => push_str(&mut out, "LBrace"),
        TokenKind::RBrace => push_str(&mut out, "RBrace"),
        TokenKind::LBracket => push_str(&mut out, "LBracket"),
        TokenKind::RBracket => push_str(&mut out, "RBracket"),
        TokenKind::Semicolon => push_str(&mut out, "Semicolon"),
        TokenKind::Comma => push_str(&mut out, "Comma"),
        TokenKind::Colon => push_str(&mut out, "Colon"),
        TokenKind::Question => push_str(&mut out, "Question"),
        TokenKind::Equal => push_str(&mut out, "Equal"),
        TokenKind::Plus => push_str(&mut out, "Plus"),
        TokenKind::Minus => push_str(&mut out, "Minus"),
        TokenKind::Star => push_str(&mut out, "Star"),
        TokenKind::Slash => push_str(&mut out, "Slash"),
        TokenKind::Percent => push_str(&mut out, "Percent"),
        TokenKind::Less => push_str(&mut out, "Less"),
        TokenKind::Greater => push_str(&mut out, "Greater"),
        TokenKind::Bang => push_str(&mut out, "Bang"),
        TokenKind::EqualEqual => push_str(&mut out, "EqualEqual"),
        TokenKind::BangEqual => push_str(&mut out, "BangEqual"),
        TokenKind::LessEqual => push_str(&mut out, "LessEqual"),
        TokenKind::GreaterEqual => push_str(&mut out, "GreaterEqual"),
        TokenKind::AndAnd => push_str(&mut out, "AndAnd"),
        TokenKind::OrOr => push_str(&mut out, "OrOr"),
        TokenKind::PlusPlus => push_str(&mut out, "PlusPlus"),
        TokenKind::MinusMinus => push_str(&mut out, "MinusMinus"),
        TokenKind::Comment => push_str(&mut out, "Comment"),
        TokenKind::EOF => push_str(&mut out, "EOF"),
    }
    out
}
/// Why parsing a program stopped: a syntax error, or a statement in a function body that
/// consumed no token (a fault of the parser itself, which statements never show).
#[derive(Debug)]
pub enum ParseFailure {
    Syntax(CompileError),
    NoProgress,
}

impl View for ParseFailure {
    type V = SpecParseFailure;

    open spec fn view(&self) -> SpecParseFailure {
        match self {
            ParseFailure::Syntax(e) => SpecParseFailure::Syntax(e@),
            ParseFailure::NoProgress => SpecParseFailure::NoProgress,
        }
    }
}

// Whether an executable parsing result agrees with its model: the same value, taken by its
// view, and the same position after it; or the same error.

pub open spec fn parsed_expr(r: Result<Expr, CompileError>, p: int, s: PResult<SpecExpr>) -> bool {
    match r {
        Ok(x) => s == Ok::<(SpecExpr, int), SpecCompileError>((x@, p)),
        Err(e) => s == Err::<(SpecExpr, int), SpecCompileError>(e@),
    }
}

pub open spec fn parsed_exprs(r: Result<Vec<Expr>, CompileError>, p: int, s: PResult<Seq<SpecExpr>>) -> bool {
    match r {
        Ok(x) => s == Ok::<(Seq<SpecExpr>, int), SpecCompileError>((exprs_view(x@), p)),
        Err(e) => s == Err::<(Seq<SpecExpr>, int), SpecCompileError>(e@),
    }
}

pub open spec fn parsed_stmt(r: Result<Stmt, CompileError>, p: int, s: PResult<SpecStmt>) -> bool {
    match r {
        Ok(x) => s == Ok::<(SpecStmt, int), SpecCompileError>((x@, p)),
        Err(e) => s == Err::<(SpecStmt, int), SpecCompileError>(e@),
    }
}

pub open spec fn parsed_stmts(r: Result<Vec<Stmt>, CompileError>, p: int, s: PResult<Seq<SpecStmt>>) -> bool {
    match r {
        Ok(x) => s == Ok::<(Seq<SpecStmt>, int), SpecCompileError>((stmts_view(x@), p)),
        Err(e) => s == Err::<(Seq<SpecStmt>, int), SpecCompileError>(e@),
    }
}

pub open spec fn parsed_cases(r: Result<Vec<(Option<Expr>, Vec<Stmt>)>, CompileError>, p: int, s: PResult<Seq<(Option<SpecExpr>, Seq<SpecStmt>)>>) -> bool {
    match r {
        Ok(x) => s == Ok::<(Seq<(Option<SpecExpr>, Seq<SpecStmt>)>, int), SpecCompileError>((cases_view(x@), p)),
        Err(e) => s == Err::<(Seq<(Option<SpecExpr>, Seq<SpecStmt>)>, int), SpecCompileError>(e@),
    }
}

pub open spec fn parsed_type(r: Result<TypeName, CompileError>, p: int, s: PResult<TypeName>) -> bool {
    match r {
        Ok(x) => s == Ok::<(TypeName, int), SpecCompileError>((x, p)),
        Err(e) => s == Err::<(TypeName, int), SpecCompileError>(e@),
    }
}

pub open spec fn parsed_vis(r: Result<Visibility, CompileError>, p: int, s: PResult<Visibility>) -> bool {
    match r {
        Ok(x) => s == Ok::<(Visibility, int), SpecCompileError>((x, p)),
        Err(e) => s == Err::<(Visibility, int), SpecCompileError>(e@),
    }
}

pub open spec fn parsed_params(r: Result<Vec<Param>, CompileError>, p: int, s: PResult<Seq<SpecParam>>) -> bool {
    match r {
        Ok(x) => s == Ok::<(Seq<SpecParam>, int), SpecCompileError>((params_view(x@), p)),
        Err(e) => s == Err::<(Seq<SpecParam>, int), SpecCompileError>(e@),
    }
}

/// `pre` in front of the list in a parsing result.
pub open spec fn prepend_list<V>(pre: Seq<V>, r: PResult<Seq<V>>) -> PResult<Seq<V>> {
    match r {
        Ok((xs, q)) => Ok((pre + xs, q)),
        Err(e) => Err(e),
    }
}

/// Turns tokens into a program.
pub struct Parser {
    tokens: Vec<Token>,
    pos: usize,
}

impl Parser {
    /// The tokens being read.
    pub closed spec fn toks(&self) -> Seq<SpecToken> {
        tokens_view(self.tokens@)
    }

    /// The position of the next token to read.
    pub closed spec fn at(&self) -> int {
        self.pos as int
    }

    pub closed spec fn wf(&self) -> bool {
        parsable(self.toks()) && self.pos <= self.tokens.len()
    }

    /// A parser at the first of `tokens`.
    pub fn new(tokens: Vec<Token>) -> (r: Self)
        ensures
            r.toks() == tokens_view(tokens@),
            r.at() == 0,
            r.wf() == parsable(tokens_view(tokens@)),
    {
        Self { tokens, pos: 0 }
    }

    /// Moves past comment tokens.
    fn skip_comments(&mut self)
        requires
            old(self).wf(),
        ensures
            final(self).wf(),
            final(self).toks() == old(self).toks(),
            final(self).at() == skip_comments(old(self).toks(), old(self).at()),
    {
        let ghost p0 = self.at();
        while self.pos < self.tokens.len() && matches!(self.tokens[self.pos].kind, TokenKind::Comment)
            invariant
                self.wf(),
                self.toks() == old(self).toks(),
                p0 == old(self).at(),
                skip_comments(self.toks(), self.at()) == skip_comments(self.toks(), p0),
            decreases self.tokens.len() - self.pos,
        {
            self.pos = self.pos + 1;
        }
    }

    /// The token at the position; past the end, the last token.
    fn cur_token(&self) -> (r: &Token)
        requires
            self.wf(),
        ensures
            r@ == tok_at(self.toks(), self.at()),
    {
        if self.pos < self.tokens.len() {
            &self.tokens[self.pos]
        } else {
            &self.tokens[self.tokens.len() - 1]
        }
    }

    /// Moves past comments, then gives the kind of the token there.
    fn current_kind(&mut self) -> (r: TokenKind)
        requires
            old(self).wf(),
        ensures
            final(self).wf(),
            final(self).toks() == old(self).toks(),
            final(self).at() == skip_comments(old(self).toks(), old(self).at()),
            r@ == kind_at(final(self).toks(), final(self).at()),
    {
        self.skip_comments();
        clone_kind(&self.cur_token().kind)
    }

    /// An error with message `m` at the token at the position.
    fn error_here(&self, m: &str) -> (r: CompileError)
        requires
            self.wf(),
        ensures
            r@ == error_at_token(m@, tok_at(self.toks(), self.at())),
    {
        let t = self.cur_token();
        CompileError::new(String::from_str(m), t.line, t.column)
    }

    fn advance(&mut self)
        requires
            old(self).wf(),
        ensures
            final(self).wf(),
            final(self).toks() == old(self).toks(),
            final(self).at() == adv(old(self).toks(), old(self).at()),
    {
        if self.pos < self.tokens.len() {
            self.pos = self.pos + 1;
        }
    }

    /// The kind of the token at the position itself, comments included.
    fn peek_kind(&self) -> (r: Option<TokenKind>)
        requires
            self.wf(),
        ensures
            match r {
                Some(k) => peek_kind(self.toks(), self.at()) == Some(k@),
                None => peek_kind(self.toks(), self.at()) is None,
            },
    {
        if self.pos < self.tokens.len() {
            Some(clone_kind(&self.tokens[self.pos].kind))
        } else {
            None
        }
    }

    fn check_kind(&self, kind: &TokenKind) -> (r: bool)
        requires
            self.wf(),
        ensures
            r == check(self.toks(), self.at(), kind@),
    {
        if self.pos < self.tokens.len() {
            kind_eq(&self.tokens[self.pos].kind, kind)
        } else {
            false
        }
    }

    #[verifier::spinoff_prover]
    fn expect_kind(&mut self, kind: TokenKind) -> (r: Result<(), CompileError>)
        requires
            old(self).wf(),
            kind@ != SpecTokenKind::EOF,
        ensures
            r is Ok ==> old(self).at() < final(self).at(),
            final(self).wf(),
            final(self).toks() == old(self).toks(),
            old(self).at() <= final(self).at(),
            match r {
                Ok(_) => expect(old(self).toks(), old(self).at(), kind@) == Ok::<int, SpecCompileError>(final(self).at()),
                Err(e) => expect(old(self).toks(), old(self).at(), kind@) == Err::<int, SpecCompileError>(e@),
            },
    {
        self.skip_comments();
        if kind_eq(&self.cur_token().kind, &kind) {
            self.advance();
            Ok(())
        } else {
            let t = self.cur_token();
            let mut m: Vec<char> = Vec::new();
            push_str(&mut m, "expected ");
            let a = kind_debug(&kind);
            push_chars(&mut m, &a);
            push_str(&mut m, ", got ");
            let b = kind_debug(&t.kind);
            push_chars(&mut m, &b);
            Err(CompileError::new(string_of(&m), t.line, t.column))
        }
    }

    /// An identifier followed by `=`.
    fn lookahead_is_assign(&self) -> (r: bool)
        requires
            self.wf(),
        ensures
            r == lookahead_assign(self.toks(), self.at()),
    {
        if self.pos < self.tokens.len() {
            if let TokenKind::Ident(_) = self.tokens[self.pos].kind {
                if self.pos + 1 < self.tokens.len() {
                    if let TokenKind::Equal = self.tokens[self.pos + 1].kind {
                        return true;
                    }
                }
            }
        }
        false
    }

    #[verifier::spinoff_prover]
    fn parse_expr(&mut self) -> (r: Result<Expr, CompileError>)
        requires
            old(self).wf(),
        ensures
            final(self).wf(),
            final(self).toks() == old(self).toks(),
            old(self).at() <= final(self).at(),
            parsed_expr(r, final(self).at(), p_expr(old(self).toks(), old(self).at())),
        decreases old(self).toks().len() - old(self).at(), 11int,
    {
        proof {
            reveal(p_expr);
            reveal(p_ternary);
        }
        self.parse_ternary()
    }

    #[verifier::spinoff_prover]
    fn parse_ternary(&mut self) -> (r: Result<Expr, CompileError>)
        requires
            old(self).wf(),
        ensures
            final(self).wf(),
            final(self).toks() == old(self).toks(),
            old(self).at() <= final(self).at(),
            parsed_expr(r, final(self).at(), p_ternary(old(self).toks(), old(self).at())),
        decreases old(self).toks().len() - old(self).at(), 10int,
    {
        proof {
            reveal(p_ternary);
            reveal(p_expr);
            reveal(p_or);
        }
        let expr = self.parse_or()?;
        if self.check_kind(&TokenKind::Question) {
            self.advance();
            let then_expr = self.parse_expr()?;
            self.expect_kind(TokenKind::Colon)?;
            let else_expr = self.parse_expr()?;
            Ok(
                Expr::Ternary {
                    cond: Box::new(expr),
                    then_expr: Box::new(then_expr),
                    else_expr: Box::new(else_expr),
                },
            )
        } else {
            Ok(expr)
        }
    }

    fn prefix_op(&self) -> (r: Option<UnaryOp>)
        requires
            self.wf(),
        ensures
            r == prefix_op(self.toks(), self.at()),
    {
        match self.peek_kind() {
            Some(TokenKind::Minus) => Some(UnaryOp::Neg),
            Some(TokenKind::Bang) => Some(UnaryOp::Not),
            Some(TokenKind::PlusPlus) => Some(UnaryOp::PreInc),
            Some(TokenKind::MinusMinus) => Some(UnaryOp::PreDec),
            _ => None,
        }
    }

    #[verifier::spinoff_prover]
    fn parse_unary(&mut self) -> (r: Result<Expr, CompileError>)
        requires
            old(self).wf(),
        ensures
            final(self).wf(),
            final(self).toks() == old(self).toks(),
            old(self).at() <= final(self).at(),
            parsed_expr(r, final(self).at(), p_unary(old(self).toks(), old(self).at())),
        decreases old(self).toks().len() - old(self).at(), 3int,
    {
        proof {
            reveal(p_unary);
            reveal(p_postfix);
        }
        match self.prefix_op() {
            Some(op) => {
                self.advance();
                let expr = self.parse_unary()?;
                Ok(Expr::Unary { op, expr: Box::new(expr) })
            },
            None => self.parse_postfix(),
        }
    }

    fn postfix_op(&self) -> (r: Option<UnaryOp>)
        requires
            self.wf(),
        ensures
            r == postfix_op(self.toks(), self.at()),
    {
        match self.peek_kind() {
            Some(TokenKind::PlusPlus) => Some(UnaryOp::PostInc),
            Some(TokenKind::MinusMinus) => Some(UnaryOp::PostDec),
            _ => None,
        }
    }

    #[verifier::spinoff_prover]
    fn parse_postfix(&mut self) -> (r: Result<Expr, CompileError>)
        requires
            old(self).wf(),
        ensures
            final(self).wf(),
            final(self).toks() == old(self).toks(),
            old(self).at() <= final(self).at(),
            parsed_expr(r, final(self).at(), p_postfix(old(self).toks(), old(self).at())),
        decreases old(self).toks().len() - old(self).at(), 2int,
    {
        proof {
            reveal(p_postfix);
            reveal(postfix_rest);
            reveal(p_primary);
        }
        let mut expr = self.parse_primary()?;
        loop
            invariant
                self.wf(),
                self.toks() == old(self).toks(),
                old(self).at() <= self.at(),
                postfix_rest(self.toks(), self.at(), expr@) == p_postfix(
                    old(self).toks(),
                    old(self).at(),
                ),
            ensures
                self.wf(),
                self.toks() == old(self).toks(),
                old(self).at() <= self.at(),
                postfix_rest(self.toks(), self.at(), expr@) == p_postfix(
                    old(self).toks(),
                    old(self).at(),
                ),
                postfix_op(self.toks(), self.at()) is None,
            decreases self.toks().len() - self.at(),
        {
            proof {
                reveal(p_postfix);
                reveal(postfix_rest);
                reveal(p_primary);
            }
            match self.postfix_op() {
                Some(op) => {
                    self.advance();
                    expr = Expr::Unary { op, expr: Box::new(expr) };
                },
                None => break,
            }
        }
        Ok(expr)
    }

    /// The arguments of a call, separated by commas.
    #[verifier::spinoff_prover]
    fn parse_args(&mut self) -> (r: Result<Vec<Expr>, CompileError>)
        requires
            old(self).wf(),
        ensures
            final(self).wf(),
            final(self).toks() == old(self).toks(),
            old(self).at() <= final(self).at(),
            parsed_exprs(
                r,
                final(self).at(),
                p_args(old(self).toks(), old(self).at())),
        decreases old(self).toks().len() - old(self).at(), 12int,
    {
        proof {
            reveal(p_args);
            reveal(p_expr);
        }
        let mut args: Vec<Expr> = Vec::new();
        loop
            invariant_except_break
                prepend_list(exprs_view(args@), p_args(self.toks(), self.at())) == p_args(
                    old(self).toks(),
                    old(self).at(),
                ),
            invariant
                self.wf(),
                self.toks() == old(self).toks(),
                old(self).at() <= self.at(),
            ensures
                self.wf(),
                self.toks() == old(self).toks(),
                old(self).at() <= self.at(),
                p_args(old(self).toks(), old(self).at()) == Ok::<(Seq<SpecExpr>, int), SpecCompileError>(
                    (exprs_view(args@), self.at()),
                ),
            decreases self.toks().len() - self.at(),
        {
            proof {
                reveal(p_args);
                reveal(p_expr);
            }
            let ghost before = exprs_view(args@);
            let ghost pa = self.at();
            let ghost ta = self.toks();
            let res = self.parse_expr();
            assert(parsed_expr(res, self.at(), p_expr(ta, pa)));
            let arg = match res {
                Ok(a) => a,
                Err(e) => {
                    assert(p_expr(ta, pa) == Err::<(SpecExpr, int), SpecCompileError>(e@));
                    return Err(e);
                },
            };
            let ghost a = arg@;
            proof {
                lemma_exprs_view_push(args@, arg);
            }
            args.push(arg);
            assert(exprs_view(args@) == before + seq![a]);
            if self.check_kind(&TokenKind::Comma) {
                self.advance();
                proof {
                    match p_args(self.toks(), self.at()) {
                        Ok((rest, q)) => {
                            assert(before + (seq![a] + rest) == (before + seq![a]) + rest);
                        },
                        Err(_) => {},
                    }
                }
            } else {
                break;
            }
        }
        Ok(args)
    }

    /// After a name: a call with its arguments in brackets, or else the variable.
    #[verifier::spinoff_prover]
    fn parse_call_or_var(&mut self, name: String) -> (r: Result<Expr, CompileError>)
        requires
            old(self).wf(),
        ensures
            final(self).wf(),
            final(self).toks() == old(self).toks(),
            old(self).at() <= final(self).at(),
            parsed_expr(
                r,
                final(self).at(),
                p_call_or_var(old(self).toks(), name@, old(self).at())),
        decreases old(self).toks().len() - old(self).at(), 0int,
    {
        proof {
            reveal(p_call_or_var);
            reveal(p_args);
        }
        if self.check_kind(&TokenKind::LParen) {
            self.advance();
            let args = if !self.check_kind(&TokenKind::RParen) {
                match self.parse_args() {
                    Ok(v) => v,
                    Err(e) => return Err(e),
                }
            } else {
                let v: Vec<Expr> = Vec::new();
                assert(exprs_view(v@) =~= Seq::<SpecExpr>::empty());
                v
            };
            match self.expect_kind(TokenKind::RParen) {
                Ok(_) => Ok(Expr::Call { name, args }),
                Err(e) => Err(e),
            }
        } else {
            Ok(Expr::Var(name))
        }
    }

    #[verifier::spinoff_prover]
    fn parse_primary(&mut self) -> (r: Result<Expr, CompileError>)
        requires
            old(self).wf(),
        ensures
            final(self).wf(),
            final(self).toks() == old(self).toks(),
            old(self).at() <= final(self).at(),
            parsed_expr(r, final(self).at(), p_primary(old(self).toks(), old(self).at())),
        decreases old(self).toks().len() - old(self).at(), 1int,
    {
        proof {
            reveal(p_primary);
            reveal(p_expr);
            reveal(p_call_or_var);
        }
        match self.current_kind() {
            TokenKind::Number(n) => {
                self.advance();
                Ok(Expr::Number(n))
            },
            TokenKind::FloatLit(f) => {
                self.advance();
                Ok(Expr::Float(f))
            },
            TokenKind::True => {
                self.advance();
                Ok(Expr::BoolLiteral(true))
            },
            TokenKind::False => {
                self.advance();
                Ok(Expr::BoolLiteral(false))
            },
            TokenKind::StringLit(s) => {
                self.advance();
                Ok(Expr::StringLiteral(s))
            },
            TokenKind::CharLit(c) => {
                self.advance();
                Ok(Expr::CharLiteral(c))
            },
            TokenKind::Ident(name) => {
                self.advance();
                self.parse_call_or_var(name)
            },
            TokenKind::LParen => {
                self.advance();
                let e = self.parse_expr()?;
                self.expect_kind(TokenKind::RParen)?;
                Ok(Expr::Paren(Box::new(e)))
            },
            _ => Err(self.error_here("expected expression")),
        }
    }

    fn or_op(&self) -> (r: Option<BinOp>)
        requires
            self.wf(),
        ensures
            r == or_op(self.toks(), self.at()),
    {
        match self.peek_kind() {
            Some(TokenKind::OrOr) => Some(BinOp::Or),
            _ => None,
        }
    }

    #[verifier::spinoff_prover]
    fn parse_or(&mut self) -> (r: Result<Expr, CompileError>)
        requires
            old(self).wf(),
        ensures
            final(self).wf(),
            final(self).toks() == old(self).toks(),
            old(self).at() <= final(self).at(),
            parsed_expr(r, final(self).at(), p_or(old(self).toks(), old(self).at())),
        decreases old(self).toks().len() - old(self).at(), 9int,
    {
        proof {
            reveal(p_or);
            reveal(or_rest);
            reveal(p_and);
        }
        let mut expr = self.parse_and()?;
        loop
            invariant
                self.wf(),
                self.toks() == old(self).toks(),
                old(self).at() <= self.at(),
                or_rest(self.toks(), self.at(), expr@) == p_or(old(self).toks(), old(self).at()),
            ensures
                self.wf(),
                self.toks() == old(self).toks(),
                old(self).at() <= self.at(),
                or_rest(self.toks(), self.at(), expr@) == p_or(old(self).toks(), old(self).at()),
                or_op(self.toks(), self.at()) is None,
            decreases self.toks().len() - self.at(),
        {
            proof {
                reveal(p_or);
                reveal(or_rest);
                reveal(p_and);
            }
            match self.or_op() {
                Some(op) => {
                    self.advance();
                    let rhs = self.parse_and()?;
                    expr = Expr::Binary { op, left: Box::new(expr), right: Box::new(rhs) };
                },
                None => break,
            }
        }
        Ok(expr)
    }

    fn and_op(&self) -> (r: Option<BinOp>)
        requires
            self.wf(),
        ensures
            r == and_op(self.toks(), self.at()),
    {
        match self.peek_kind() {
            Some(TokenKind::AndAnd) => Some(BinOp::And),
            _ => None,
        }
    }

    #[verifier::spinoff_prover]
    fn parse_and(&mut self) -> (r: Result<Expr, CompileError>)
        requires
            old(self).wf(),
        ensures
            final(self).wf(),
            final(self).toks() == old(self).toks(),
            old(self).at() <= final(self).at(),
            parsed_expr(r, final(self).at(), p_and(old(self).toks(), old(self).at())),
        decreases old(self).toks().len() - old(self).at(), 8int,
    {
        proof {
            reveal(p_and);
            reveal(and_rest);
            reveal(p_equality);
        }
        let mut expr = self.parse_equality()?;
        loop
            invariant
                self.wf(),
                self.toks() == old(self).toks(),
                old(self).at() <= self.at(),
                and_rest(self.toks(), self.at(), expr@) == p_and(old(self).toks(), old(self).at()),
            ensures
                self.wf(),
                self.toks() == old(self).toks(),
                old(self).at() <= self.at(),
                and_rest(self.toks(), self.at(), expr@) == p_and(old(self).toks(), old(self).at()),
                and_op(self.toks(), self.at()) is None,
            decreases self.toks().len() - self.at(),
        {
            proof {
                reveal(p_and);
                reveal(and_rest);
                reveal(p_equality);
            }
            match self.and_op() {
                Some(op) => {
                    self.advance();
                    let rhs = self.parse_equality()?;
                    expr = Expr::Binary { op, left: Box::new(expr), right: Box::new(rhs) };
                },
                None => break,
            }
        }
        Ok(expr)
    }

    fn equality_op(&self) -> (r: Option<BinOp>)
        requires
            self.wf(),
        ensures
            r == equality_op(self.toks(), self.at()),
    {
        match self.peek_kind() {
            Some(TokenKind::EqualEqual) => Some(BinOp::Equal),
            Some(TokenKind::BangEqual) => Some(BinOp::NotEqual),
            _ => None,
        }
    }

    #[verifier::spinoff_prover]
    fn parse_equality(&mut self) -> (r: Result<Expr, CompileError>)
        requires
            old(self).wf(),
        ensures
            final(self).wf(),
            final(self).toks() == old(self).toks(),
            old(self).at() <= final(self).at(),
            parsed_expr(r, final(self).at(), p_equality(old(self).toks(), old(self).at())),
        decreases old(self).toks().len() - old(self).at(), 7int,
    {
        proof {
            reveal(p_equality);
            reveal(equality_rest);
            reveal(p_comparison);
        }
        let mut expr = self.parse_comparison()?;
        loop
            invariant
                self.wf(),
                self.toks() == old(self).toks(),
                old(self).at() <= self.at(),
                equality_rest(self.toks(), self.at(), expr@) == p_equality(old(self).toks(), old(self).at()),
            ensures
                self.wf(),
                self.toks() == old(self).toks(),
                old(self).at() <= self.at(),
                equality_rest(self.toks(), self.at(), expr@) == p_equality(old(self).toks(), old(self).at()),
                equality_op(self.toks(), self.at()) is None,
            decreases self.toks().len() - self.at(),
        {
            proof {
                reveal(p_equality);
                reveal(equality_rest);
                reveal(p_comparison);
            }
            match self.equality_op() {
                Some(op) => {
                    self.advance();
                    let rhs = self.parse_comparison()?;
                    expr = Expr::Binary { op, left: Box::new(expr), right: Box::new(rhs) };
                },
                None => break,
            }
        }
        Ok(expr)
    }

    fn comparison_op(&self) -> (r: Option<BinOp>)
        requires
            self.wf(),
        ensures
            r == comparison_op(self.toks(), self.at()),
    {
        match self.peek_kind() {
            Some(TokenKind::Less) => Some(BinOp::Less),
            Some(TokenKind::Greater) => Some(BinOp::Greater),
            Some(TokenKind::LessEqual) => Some(BinOp::LessEqual),
            Some(TokenKind::GreaterEqual) => Some(BinOp::GreaterEqual),
            _ => None,
        }
    }

    #[verifier::spinoff_prover]
    fn parse_comparison(&mut self) -> (r: Result<Expr, CompileError>)
        requires
            old(self).wf(),
        ensures
            final(self).wf(),
            final(self).toks() == old(self).toks(),
            old(self).at() <= final(self).at(),
            parsed_expr(r, final(self).at(), p_comparison(old(self).toks(), old(self).at())),
        decreases old(self).toks().len() - old(self).at(), 6int,
    {
        proof {
            reveal(p_comparison);
            reveal(comparison_rest);
            reveal(p_add_sub);
        }
        let mut expr = self.parse_add_sub()?;
        loop
            invariant
                self.wf(),
                self.toks() == old(self).toks(),
                old(self).at() <= self.at(),
                comparison_rest(self.toks(), self.at(), expr@) == p_comparison(old(self).toks(), old(self).at()),
            ensures
                self.wf(),
                self.toks() == old(self).toks(),
                old(self).at() <= self.at(),
                comparison_rest(self.toks(), self.at(), expr@) == p_comparison(old(self).toks(), old(self).at()),
                comparison_op(self.toks(), self.at()) is None,
            decreases self.toks().len() - self.at(),
        {
            proof {
                reveal(p_comparison);
                reveal(comparison_rest);
                reveal(p_add_sub);
            }
            match self.comparison_op() {
                Some(op) => {
                    self.advance();
                    let rhs = self.parse_add_sub()?;
                    expr = Expr::Binary { op, left: Box::new(expr), right: Box::new(rhs) };
                },
                None => break,
            }
        }
        Ok(expr)
    }

    fn add_sub_op(&self) -> (r: Option<BinOp>)
        requires
            self.wf(),
        ensures
            r == add_sub_op(self.toks(), self.at()),
    {
        match self.peek_kind() {
            Some(TokenKind::Plus) => Some(BinOp::Add),
            Some(TokenKind::Minus) => Some(BinOp::Sub),
            _ => None,
        }
    }

    #[verifier::spinoff_prover]
    fn parse_add_sub(&mut self) -> (r: Result<Expr, CompileError>)
        requires
            old(self).wf(),
        ensures
            final(self).wf(),
            final(self).toks() == old(self).toks(),
            old(self).at() <= final(self).at(),
            parsed_expr(r, final(self).at(), p_add_sub(old(self).toks(), old(self).at())),
        decreases old(self).toks().len() - old(self).at(), 5int,
    {
        proof {
            reveal(p_add_sub);
            reveal(add_sub_rest);
            reveal(p_mul_div);
        }
        let mut expr = self.parse_mul_div()?;
        loop
            invariant
                self.wf(),
                self.toks() == old(self).toks(),
                old(self).at() <= self.at(),
                add_sub_rest(self.toks(), self.at(), expr@) == p_add_sub(old(self).toks(), old(self).at()),
            ensures
                self.wf(),
                self.toks() == old(self).toks(),
                old(self).at() <= self.at(),
                add_sub_rest(self.toks(), self.at(), expr@) == p_add_sub(old(self).toks(), old(self).at()),
                add_sub_op(self.toks(), self.at()) is None,
            decreases self.toks().len() - self.at(),
        {
            proof {
                reveal(p_add_sub);
                reveal(add_sub_rest);
                reveal(p_mul_div);
            }
            match self.add_sub_op() {
                Some(op) => {
                    self.advance();
                    let rhs = self.parse_mul_div()?;
                    expr = Expr::Binary { op, left: Box::new(expr), right: Box::new(rhs) };
                },
                None => break,
            }
        }
        Ok(expr)
    }

    fn mul_div_op(&self) -> (r: Option<BinOp>)
        requires
            self.wf(),
        ensures
            r == mul_div_op(self.toks(), self.at()),
    {
        match self.peek_kind() {
            Some(TokenKind::Star) => Some(BinOp::Mul),
            Some(TokenKind::Slash) => Some(BinOp::Div),
            Some(TokenKind::Percent) => Some(BinOp::Mod),
            _ => None,
        }
    }

    #[verifier::spinoff_prover]
    fn parse_mul_div(&mut self) -> (r: Result<Expr, CompileError>)
        requires
            old(self).wf(),
        ensures
            final(self).wf(),
            final(self).toks() == old(self).toks(),
            old(self).at() <= final(self).at(),
            parsed_expr(r, final(self).at(), p_mul_div(old(self).toks(), old(self).at())),
        decreases old(self).toks().len() - old(self).at(), 4int,
    {
        proof {
            reveal(p_mul_div);
            reveal(mul_div_rest);
            reveal(p_unary);
        }
        let mut expr = self.parse_unary()?;
        loop
            invariant
                self.wf(),
                self.toks() == old(self).toks(),
                old(self).at() <= self.at(),
                mul_div_rest(self.toks(), self.at(), expr@) == p_mul_div(old(self).toks(), old(self).at()),
            ensures
                self.wf(),
                self.toks() == old(self).toks(),
                old(self).at() <= self.at(),
                mul_div_rest(self.toks(), self.at(), expr@) == p_mul_div(old(self).toks(), old(self).at()),
                mul_div_op(self.toks(), self.at()) is None,
            decreases self.toks().len() - self.at(),
        {
            proof {
                reveal(p_mul_div);
                reveal(mul_div_rest);
                reveal(p_unary);
            }
            match self.mul_div_op() {
                Some(op) => {
                    self.advance();
                    let rhs = self.parse_unary()?;
                    expr = Expr::Binary { op, left: Box::new(expr), right: Box::new(rhs) };
                },
                None => break,
            }
        }
        Ok(expr)
    }
    #[verifier::spinoff_prover]
    fn parse_stmt_list(&mut self, in_switch: bool) -> (r: Result<Vec<Stmt>, CompileError>)
        requires
            old(self).wf(),
        ensures
            final(self).wf(),
            final(self).toks() == old(self).toks(),
            old(self).at() <= final(self).at(),
            parsed_stmts(r, final(self).at(), p_stmt_list(old(self).toks(), old(self).at(), in_switch)),
        decreases old(self).toks().len() - old(self).at(), 15int,
    {
        proof {
            reveal(p_stmt_list);
            reveal(p_stmt);
        }
        let mut stmts: Vec<Stmt> = Vec::new();
        loop
            invariant
                self.wf(),
                self.toks() == old(self).toks(),
                old(self).at() <= self.at(),
                prepend_list(stmts_view(stmts@), p_stmt_list(self.toks(), self.at(), in_switch))
                    == p_stmt_list(old(self).toks(), old(self).at(), in_switch),
            ensures
                self.wf(),
                self.toks() == old(self).toks(),
                old(self).at() <= self.at(),
                p_stmt_list(old(self).toks(), old(self).at(), in_switch) == Ok::<
                    (Seq<SpecStmt>, int),
                    SpecCompileError,
                >((stmts_view(stmts@), self.at())),
            decreases self.toks().len() - self.at(),
        {
            proof {
                reveal(p_stmt_list);
                reveal(p_stmt);
            }
            let ends = if in_switch {
                self.check_kind(&TokenKind::Case) || self.check_kind(&TokenKind::Default)
                    || self.check_kind(&TokenKind::RBrace)
            } else {
                self.check_kind(&TokenKind::RBrace)
            };
            if ends {
                assert(stmts_view(stmts@) + Seq::<SpecStmt>::empty() == stmts_view(stmts@));
                break;
            }
            let ghost before = stmts_view(stmts@);
            let s = self.parse_stmt()?;
            let ghost v = s@;
            proof {
                lemma_stmts_view_push(stmts@, s);
                match p_stmt_list(self.toks(), self.at(), in_switch) {
                    Ok((rest, q)) => {
                        assert(before + (seq![v] + rest) == (before + seq![v]) + rest);
                    },
                    Err(_) => {},
                }
            }
            stmts.push(s);
        }
        Ok(stmts)
    }

    #[verifier::spinoff_prover]
    fn parse_block(&mut self) -> (r: Result<Vec<Stmt>, CompileError>)
        requires
            old(self).wf(),
        ensures
            r is Ok ==> old(self).at() < final(self).at(),
            final(self).wf(),
            final(self).toks() == old(self).toks(),
            old(self).at() <= final(self).at(),
            parsed_stmts(r, final(self).at(), p_block(old(self).toks(), old(self).at())),
        decreases old(self).toks().len() - old(self).at(), 16int,
    {
        proof {
            reveal(p_block);
            reveal(p_stmt_list);
        }
        self.expect_kind(TokenKind::LBrace)?;
        let body = self.parse_stmt_list(false)?;
        self.expect_kind(TokenKind::RBrace)?;
        Ok(body)
    }

    #[verifier::spinoff_prover]
    fn parse_paren_cond(&mut self) -> (r: Result<Expr, CompileError>)
        requires
            old(self).wf(),
        ensures
            final(self).wf(),
            final(self).toks() == old(self).toks(),
            old(self).at() <= final(self).at(),
            parsed_expr(r, final(self).at(), p_paren_cond(old(self).toks(), old(self).at())),
        decreases old(self).toks().len() - old(self).at(), 12int,
    {
        proof {
            reveal(p_paren_cond);
            reveal(p_expr);
        }
        self.expect_kind(TokenKind::LParen)?;
        let cond = self.parse_expr()?;
        self.expect_kind(TokenKind::RParen)?;
        Ok(cond)
    }

    #[verifier::spinoff_prover]
    fn parse_expr_stmt(&mut self) -> (r: Result<Stmt, CompileError>)
        requires
            old(self).wf(),
        ensures
            r is Ok ==> old(self).at() < final(self).at(),
            final(self).wf(),
            final(self).toks() == old(self).toks(),
            old(self).at() <= final(self).at(),
            parsed_stmt(r, final(self).at(), p_expr_stmt(old(self).toks(), old(self).at())),
        decreases old(self).toks().len() - old(self).at(), 13int,
    {
        proof {
            reveal(p_expr_stmt);
            reveal(p_expr);
        }
        let expr = self.parse_expr()?;
        self.expect_kind(TokenKind::Semicolon)?;
        Ok(Stmt::ExprStmt(expr))
    }

    #[verifier::spinoff_prover]
    fn parse_stmt(&mut self) -> (r: Result<Stmt, CompileError>)
        requires
            old(self).wf(),
        ensures
            r is Ok ==> old(self).at() < final(self).at(),
            final(self).wf(),
            final(self).toks() == old(self).toks(),
            old(self).at() <= final(self).at(),
            parsed_stmt(r, final(self).at(), p_stmt(old(self).toks(), old(self).at())),
        decreases old(self).toks().len() - old(self).at(), 14int,
    {
        proof {
            reveal(p_stmt);
            reveal(p_expr);
            reveal(p_expr_stmt);
            reveal(p_assign);
            reveal(p_if);
            reveal(p_while);
            reveal(p_do_while);
            reveal(p_for);
            reveal(p_switch);
            reveal(p_var_decl);
        }
        match self.peek_kind() {
            Some(TokenKind::Int) | Some(TokenKind::Bool) | Some(TokenKind::StringType) | Some(
                TokenKind::Float,
            ) | Some(TokenKind::Double) | Some(TokenKind::CharType) | Some(TokenKind::Var) => {
                self.parse_var_decl()
            },
            Some(TokenKind::Return) => {
                self.advance();
                if self.check_kind(&TokenKind::Semicolon) {
                    self.advance();
                    Ok(Stmt::Return(None))
                } else {
                    let expr = self.parse_expr()?;
                    self.expect_kind(TokenKind::Semicolon)?;
                    Ok(Stmt::Return(Some(expr)))
                }
            },
            Some(TokenKind::If) => self.parse_if(),
            Some(TokenKind::While) => self.parse_while(),
            Some(TokenKind::DoWhile) => self.parse_do_while(),
            Some(TokenKind::For) => self.parse_for(),
            Some(TokenKind::Switch) => self.parse_switch(),
            Some(TokenKind::Break) => {
                self.advance();
                self.expect_kind(TokenKind::Semicolon)?;
                Ok(Stmt::Break)
            },
            Some(TokenKind::Continue) => {
                self.advance();
                self.expect_kind(TokenKind::Semicolon)?;
                Ok(Stmt::Continue)
            },
            Some(TokenKind::Ident(_)) => {
                if self.lookahead_is_assign() {
                    self.parse_assign()
                } else {
                    self.parse_expr_stmt()
                }
            },
            _ => {
                let k = self.current_kind();
                let mut m: Vec<char> = Vec::new();
                push_str(&mut m, "unexpected token '");
                let d = kind_debug(&k);
                push_chars(&mut m, &d);
                push_str(&mut m, "' in statement");
                let t = self.cur_token();
                Err(CompileError::new(string_of(&m), t.line, t.column))
            },
        }
    }

    #[verifier::spinoff_prover]
    fn parse_assign_core(&mut self) -> (r: Result<Stmt, CompileError>)
        requires
            old(self).wf(),
        ensures
            final(self).wf(),
            final(self).toks() == old(self).toks(),
            old(self).at() <= final(self).at(),
            parsed_stmt(r, final(self).at(), p_assign_core(old(self).toks(), old(self).at())),
        decreases old(self).toks().len() - old(self).at(), 12int,
    {
        proof {
            reveal(p_assign_core);
            reveal(p_expr);
        }
        let name = match self.current_kind() {
            TokenKind::Ident(s) => {
                self.advance();
                s
            },
            _ => {
                return Err(self.error_here("expected identifier in assignment"));
            },
        };
        self.expect_kind(TokenKind::Equal)?;
        let expr = self.parse_expr()?;
        Ok(Stmt::Assign { name, expr })
    }

    #[verifier::spinoff_prover]
    fn parse_assign(&mut self) -> (r: Result<Stmt, CompileError>)
        requires
            old(self).wf(),
        ensures
            r is Ok ==> old(self).at() < final(self).at(),
            final(self).wf(),
            final(self).toks() == old(self).toks(),
            old(self).at() <= final(self).at(),
            parsed_stmt(r, final(self).at(), p_assign(old(self).toks(), old(self).at())),
        decreases old(self).toks().len() - old(self).at(), 13int,
    {
        proof {
            reveal(p_assign);
            reveal(p_assign_core);
        }
        let s = self.parse_assign_core()?;
        self.expect_kind(TokenKind::Semicolon)?;
        Ok(s)
    }

    #[verifier::spinoff_prover]
    fn parse_if(&mut self) -> (r: Result<Stmt, CompileError>)
        requires
            old(self).wf(),
        ensures
            r is Ok ==> old(self).at() < final(self).at(),
            final(self).wf(),
            final(self).toks() == old(self).toks(),
            old(self).at() <= final(self).at(),
            parsed_stmt(r, final(self).at(), p_if(old(self).toks(), old(self).at())),
        decreases old(self).toks().len() - old(self).at(), 13int,
    {
        proof {
            reveal(p_if);
            reveal(p_block);
            reveal(p_paren_cond);
        }
        self.expect_kind(TokenKind::If)?;
        let cond = self.parse_paren_cond()?;
        let then_body = self.parse_block()?;
        let mut else_body: Vec<Stmt> = Vec::new();
        assert(stmts_view(else_body@) =~= Seq::<SpecStmt>::empty());
        if self.check_kind(&TokenKind::Else) {
            self.advance();
            if self.check_kind(&TokenKind::If) {
                let else_if_stmt = self.parse_if()?;
                proof {
                    lemma_stmts_view_push(else_body@, else_if_stmt);
                }
                else_body.push(else_if_stmt);
            } else {
                else_body = self.parse_block()?;
            }
        }
        Ok(Stmt::If { cond, then_body, else_body })
    }

    #[verifier::spinoff_prover]
    fn parse_while(&mut self) -> (r: Result<Stmt, CompileError>)
        requires
            old(self).wf(),
        ensures
            r is Ok ==> old(self).at() < final(self).at(),
            final(self).wf(),
            final(self).toks() == old(self).toks(),
            old(self).at() <= final(self).at(),
            parsed_stmt(r, final(self).at(), p_while(old(self).toks(), old(self).at())),
        decreases old(self).toks().len() - old(self).at(), 13int,
    {
        proof {
            reveal(p_while);
            reveal(p_block);
            reveal(p_paren_cond);
        }
        self.expect_kind(TokenKind::While)?;
        let cond = self.parse_paren_cond()?;
        let body = self.parse_block()?;
        Ok(Stmt::While { cond, body })
    }

    #[verifier::spinoff_prover]
    fn parse_do_while(&mut self) -> (r: Result<Stmt, CompileError>)
        requires
            old(self).wf(),
        ensures
            r is Ok ==> old(self).at() < final(self).at(),
            final(self).wf(),
            final(self).toks() == old(self).toks(),
            old(self).at() <= final(self).at(),
            parsed_stmt(r, final(self).at(), p_do_while(old(self).toks(), old(self).at())),
        decreases old(self).toks().len() - old(self).at(), 13int,
    {
        proof {
            reveal(p_do_while);
            reveal(p_block);
            reveal(p_paren_cond);
        }
        self.expect_kind(TokenKind::DoWhile)?;
        let body = self.parse_block()?;
        self.expect_kind(TokenKind::While)?;
        let cond = self.parse_paren_cond()?;
        self.expect_kind(TokenKind::Semicolon)?;
        Ok(Stmt::DoWhile { body, cond })
    }

    #[verifier::spinoff_prover]
    fn parse_for_init(&mut self) -> (r: Result<Stmt, CompileError>)
        requires
            old(self).wf(),
        ensures
            final(self).wf(),
            final(self).toks() == old(self).toks(),
            old(self).at() <= final(self).at(),
            parsed_stmt(r, final(self).at(), p_for_init(old(self).toks(), old(self).at())),
        decreases old(self).toks().len() - old(self).at(), 14int,
    {
        proof {
            reveal(p_for_init);
            reveal(p_assign);
            reveal(p_var_decl);
        }
        match self.peek_kind() {
            Some(TokenKind::Int) | Some(TokenKind::Bool) | Some(TokenKind::StringType) | Some(
                TokenKind::Float,
            ) | Some(TokenKind::Double) | Some(TokenKind::CharType) | Some(TokenKind::Var) => {
                self.parse_var_decl()
            },
            Some(TokenKind::Ident(_)) => self.parse_assign(),
            _ => {
                self.skip_comments();
                Err(self.error_here("invalid for-loop init"))
            },
        }
    }

    #[verifier::spinoff_prover]
    fn parse_for_step(&mut self) -> (r: Result<Stmt, CompileError>)
        requires
            old(self).wf(),
        ensures
            final(self).wf(),
            final(self).toks() == old(self).toks(),
            old(self).at() <= final(self).at(),
            parsed_stmt(r, final(self).at(), p_for_step(old(self).toks(), old(self).at())),
        decreases old(self).toks().len() - old(self).at(), 13int,
    {
        proof {
            reveal(p_for_step);
            reveal(p_expr);
            reveal(p_assign_core);
        }
        if self.lookahead_is_assign() {
            self.parse_assign_core()
        } else {
            let expr = self.parse_expr()?;
            Ok(Stmt::ExprStmt(expr))
        }
    }

    #[verifier::spinoff_prover]
    fn parse_for(&mut self) -> (r: Result<Stmt, CompileError>)
        requires
            old(self).wf(),
        ensures
            r is Ok ==> old(self).at() < final(self).at(),
            final(self).wf(),
            final(self).toks() == old(self).toks(),
            old(self).at() <= final(self).at(),
            parsed_stmt(r, final(self).at(), p_for(old(self).toks(), old(self).at())),
        decreases old(self).toks().len() - old(self).at(), 13int,
    {
        proof {
            reveal(p_for);
            reveal(p_expr);
            reveal(p_block);
            reveal(p_for_init);
            reveal(p_for_step);
        }
        self.expect_kind(TokenKind::For)?;
        self.expect_kind(TokenKind::LParen)?;
        let init = self.parse_for_init()?;
        let cond = self.parse_expr()?;
        self.expect_kind(TokenKind::Semicolon)?;
        let step = self.parse_for_step()?;
        self.expect_kind(TokenKind::RParen)?;
        let body = self.parse_block()?;
        Ok(Stmt::For { init: Box::new(init), cond, step: Box::new(step), body })
    }

    #[verifier::spinoff_prover]
    fn parse_cases(&mut self) -> (r: Result<Vec<(Option<Expr>, Vec<Stmt>)>, CompileError>)
        requires
            old(self).wf(),
        ensures
            final(self).wf(),
            final(self).toks() == old(self).toks(),
            old(self).at() <= final(self).at(),
            parsed_cases(r, final(self).at(), p_cases(old(self).toks(), old(self).at())),
        decreases old(self).toks().len() - old(self).at(), 15int,
    {
        proof {
            reveal(p_cases);
            reveal(p_expr);
            reveal(p_stmt_list);
        }
        let mut cases: Vec<(Option<Expr>, Vec<Stmt>)> = Vec::new();
        loop
            invariant
                self.wf(),
                self.toks() == old(self).toks(),
                old(self).at() <= self.at(),
                prepend_list(cases_view(cases@), p_cases(self.toks(), self.at())) == p_cases(
                    old(self).toks(),
                    old(self).at(),
                ),
            ensures
                self.wf(),
                self.toks() == old(self).toks(),
                old(self).at() <= self.at(),
                p_cases(old(self).toks(), old(self).at()) == Ok::<
                    (Seq<(Option<SpecExpr>, Seq<SpecStmt>)>, int),
                    SpecCompileError,
                >((cases_view(cases@), self.at())),
            decreases self.toks().len() - self.at(),
        {
            proof {
                reveal(p_cases);
                reveal(p_expr);
                reveal(p_stmt_list);
            }
            if self.check_kind(&TokenKind::RBrace) {
                assert(cases_view(cases@) + Seq::<(Option<SpecExpr>, Seq<SpecStmt>)>::empty()
                    == cases_view(cases@));
                break;
            }
            let label = if self.check_kind(&TokenKind::Case) {
                self.advance();
                let val = self.parse_expr()?;
                Some(val)
            } else if self.check_kind(&TokenKind::Default) {
                self.advance();
                None
            } else {
                self.skip_comments();
                return Err(self.error_here("expected 'case' or 'default' in switch"));
            };
            self.expect_kind(TokenKind::Colon)?;
            let stmts = self.parse_stmt_list(true)?;
            let ghost before = cases_view(cases@);
            let item = (label, stmts);
            let ghost v = cases_view(seq![item]);
            proof {
                let lv = opt_expr_view(item.0);
                assert(seq![item].drop_first() =~= Seq::<(Option<Expr>, Vec<Stmt>)>::empty());
                assert(seq![item][0] == item);
                assert(cases_view(Seq::<(Option<Expr>, Vec<Stmt>)>::empty()) =~= Seq::empty());
                assert(v =~= seq![(lv, stmts_view(item.1@))]);
                lemma_cases_view_push(cases@, item);
                match p_cases(self.toks(), self.at()) {
                    Ok((rest, q)) => {
                        assert(before + (v + rest) == (before + v) + rest);
                    },
                    Err(_) => {},
                }
            }
            cases.push(item);
        }
        Ok(cases)
    }

    #[verifier::spinoff_prover]
    fn parse_switch(&mut self) -> (r: Result<Stmt, CompileError>)
        requires
            old(self).wf(),
        ensures
            r is Ok ==> old(self).at() < final(self).at(),
            final(self).wf(),
            final(self).toks() == old(self).toks(),
            old(self).at() <= final(self).at(),
            parsed_stmt(r, final(self).at(), p_switch(old(self).toks(), old(self).at())),
        decreases old(self).toks().len() - old(self).at(), 13int,
    {
        proof {
            reveal(p_switch);
            reveal(p_paren_cond);
            reveal(p_cases);
        }
        self.expect_kind(TokenKind::Switch)?;
        let expr = self.parse_paren_cond()?;
        self.expect_kind(TokenKind::LBrace)?;
        let cases = self.parse_cases()?;
        self.expect_kind(TokenKind::RBrace)?;
        Ok(Stmt::Switch { expr, cases })
    }

    #[verifier::spinoff_prover]
    fn parse_var_decl(&mut self) -> (r: Result<Stmt, CompileError>)
        requires
            old(self).wf(),
        ensures
            r is Ok ==> old(self).at() < final(self).at(),
            final(self).wf(),
            final(self).toks() == old(self).toks(),
            old(self).at() <= final(self).at(),
            parsed_stmt(r, final(self).at(), p_var_decl(old(self).toks(), old(self).at())),
        decreases old(self).toks().len() - old(self).at(), 13int,
    {
        proof {
            reveal(p_var_decl);
            reveal(p_expr);
        }
        let explicit_type = match self.peek_kind() {
            Some(TokenKind::Int) => Some(TypeName::Int),
            Some(TokenKind::Bool) => Some(TypeName::Bool),
            Some(TokenKind::StringType) => Some(TypeName::String),
            Some(TokenKind::Float) => Some(TypeName::Float),
            Some(TokenKind::Double) => Some(TypeName::Double),
            Some(TokenKind::CharType) => Some(TypeName::Char),
            Some(TokenKind::Var) => None,
            _ => {
                self.skip_comments();
                return Err(self.error_here("expected type or 'var'"));
            },
        };
        self.advance();
        let name = match self.current_kind() {
            TokenKind::Ident(s) => {
                self.advance();
                s
            },
            _ => {
                return Err(self.error_here("expected variable name"));
            },
        };
        self.expect_kind(TokenKind::Equal)?;
        let init = self.parse_expr()?;
        self.expect_kind(TokenKind::Semicolon)?;
        Ok(Stmt::VarDecl { explicit_type, name, init })
    }
    #[verifier::spinoff_prover]
    fn parse_type(&mut self) -> (r: Result<TypeName, CompileError>)
        requires
            old(self).wf(),
        ensures
            final(self).wf(),
            final(self).toks() == old(self).toks(),
            old(self).at() <= final(self).at(),
            parsed_type(r, final(self).at(), p_type(old(self).toks(), old(self).at())),
    {
        let ty = match self.current_kind() {
            TokenKind::Int => TypeName::Int,
            TokenKind::Bool => TypeName::Bool,
            TokenKind::Void => TypeName::Void,
            TokenKind::StringType => TypeName::String,
            TokenKind::Float => TypeName::Float,
            TokenKind::Double => TypeName::Double,
            TokenKind::CharType => TypeName::Char,
            _ => {
                return Err(self.error_here("expected type"));
            },
        };
        self.advance();
        Ok(ty)
    }

    #[verifier::spinoff_prover]
    fn parse_visibility(&mut self) -> (r: Result<Visibility, CompileError>)
        requires
            old(self).wf(),
        ensures
            final(self).wf(),
            final(self).toks() == old(self).toks(),
            old(self).at() <= final(self).at(),
            parsed_vis(
                r,
                final(self).at(),
                p_visibility(old(self).toks(), old(self).at())),
    {
        let vis = match self.current_kind() {
            TokenKind::EOF => Visibility::Private,
            TokenKind::Public => Visibility::Public,
            TokenKind::Private => Visibility::Private,
            TokenKind::Protected => Visibility::Protected,
            _ => {
                return Err(self.error_here("expected visibility (public/private/protected)"));
            },
        };
        self.advance();
        Ok(vis)
    }

    /// The parameters of a function, separated by commas.
    #[verifier::spinoff_prover]
    fn parse_params(&mut self) -> (r: Result<Vec<Param>, CompileError>)
        requires
            old(self).wf(),
        ensures
            final(self).wf(),
            final(self).toks() == old(self).toks(),
            old(self).at() <= final(self).at(),
            parsed_params(
                r,
                final(self).at(),
                p_params(old(self).toks(), old(self).at())),
    {
        let mut params: Vec<Param> = Vec::new();
        loop
            invariant_except_break
                prepend_list(params_view(params@), p_params(self.toks(), self.at())) == p_params(
                    old(self).toks(),
                    old(self).at(),
                ),
            invariant
                self.wf(),
                self.toks() == old(self).toks(),
                old(self).at() <= self.at(),
            ensures
                self.wf(),
                self.toks() == old(self).toks(),
                old(self).at() <= self.at(),
                p_params(old(self).toks(), old(self).at()) == Ok::<(Seq<SpecParam>, int), SpecCompileError>(
                    (params_view(params@), self.at()),
                ),
            decreases self.toks().len() - self.at(),
        {
            let ty = self.parse_type()?;
            let pname = match self.current_kind() {
                TokenKind::Ident(s) => {
                    self.advance();
                    s
                },
                _ => {
                    return Err(self.error_here("expected parameter name"));
                },
            };
            let ghost before = params_view(params@);
            let param = Param { name: pname, ty };
            let ghost v = param@;
            params.push(param);
            assert(params_view(params@) == before + seq![v]);
            if self.check_kind(&TokenKind::Comma) {
                self.advance();
                proof {
                    match p_params(self.toks(), self.at()) {
                        Ok((rest, q)) => {
                            assert(before + (seq![v] + rest) == (before + seq![v]) + rest);
                        },
                        Err(_) => {},
                    }
                }
            } else {
                break;
            }
        }
        Ok(params)
    }

    /// The statements of a function body, up to its closing brace.
    #[verifier::spinoff_prover]
    fn parse_body(&mut self) -> (r: Result<Vec<Stmt>, ParseFailure>)
        requires
            old(self).wf(),
        ensures
            !(r matches Err(ParseFailure::NoProgress)),
            final(self).wf(),
            final(self).toks() == old(self).toks(),
            old(self).at() <= final(self).at(),
            match r {
                Ok(v) => p_body(old(self).toks(), old(self).at()) == Ok::<
                    (Seq<SpecStmt>, int),
                    SpecParseFailure,
                >((stmts_view(v@), final(self).at())),
                Err(f) => p_body(old(self).toks(), old(self).at()) == Err::<
                    (Seq<SpecStmt>, int),
                    SpecParseFailure,
                >(f@),
            },
    {
        let mut body: Vec<Stmt> = Vec::new();
        loop
            invariant
                self.wf(),
                self.toks() == old(self).toks(),
                old(self).at() <= self.at(),
                prepend_body(stmts_view(body@), p_body(self.toks(), self.at())) == p_body(
                    old(self).toks(),
                    old(self).at(),
                ),
            ensures
                self.wf(),
                self.toks() == old(self).toks(),
                old(self).at() <= self.at(),
                p_body(old(self).toks(), old(self).at()) == Ok::<(Seq<SpecStmt>, int), SpecParseFailure>(
                    (stmts_view(body@), self.at()),
                ),
            decreases self.toks().len() - self.at(),
        {
            if self.check_kind(&TokenKind::RBrace) {
                assert(stmts_view(body@) + Seq::<SpecStmt>::empty() == stmts_view(body@));
                break;
            }
            self.skip_comments();
            let before = self.pos;
            let stmt = match self.parse_stmt() {
                Ok(s) => s,
                Err(e) => {
                    return Err(ParseFailure::Syntax(e));
                },
            };
            self.skip_comments();
            if self.pos == before {
                return Err(ParseFailure::NoProgress);
            }
            if !stmt.is_empty() {
                let ghost prev = stmts_view(body@);
                let ghost v = stmt@;
                proof {
                    lemma_stmts_view_push(body@, stmt);
                    match p_body(self.toks(), self.at()) {
                        Ok((rest, q)) => {
                            assert(prev + (seq![v] + rest) == (prev + seq![v]) + rest);
                        },
                        Err(_) => {},
                    }
                }
                body.push(stmt);
            }
        }
        Ok(body)
    }

    #[verifier::spinoff_prover]
    fn parse_function(&mut self) -> (r: Result<FunctionDecl, ParseFailure>)
        requires
            old(self).wf(),
        ensures
            !(r matches Err(ParseFailure::NoProgress)),
            r is Ok ==> old(self).at() < final(self).at(),
            final(self).wf(),
            final(self).toks() == old(self).toks(),
            old(self).at() <= final(self).at(),
            match r {
                Ok(f) => p_function(old(self).toks(), old(self).at()) == Ok::<
                    (SpecFunction, int),
                    SpecParseFailure,
                >((f@, final(self).at())),
                Err(e) => p_function(old(self).toks(), old(self).at()) == Err::<
                    (SpecFunction, int),
                    SpecParseFailure,
                >(e@),
            },
    {
        let visibility = match self.parse_visibility() {
            Ok(v) => v,
            Err(e) => {
                return Err(ParseFailure::Syntax(e));
            },
        };
        if let Err(e) = self.expect_kind(TokenKind::Funct) {
            return Err(ParseFailure::Syntax(e));
        }
        let return_type = match self.parse_type() {
            Ok(t) => t,
            Err(e) => {
                return Err(ParseFailure::Syntax(e));
            },
        };
        let name = match self.current_kind() {
            TokenKind::Ident(s) => {
                self.advance();
                s
            },
            _ => {
                return Err(ParseFailure::Syntax(self.error_here("expected function name")));
            },
        };
        if let Err(e) = self.expect_kind(TokenKind::LParen) {
            return Err(ParseFailure::Syntax(e));
        }
        let params = if !self.check_kind(&TokenKind::RParen) {
            match self.parse_params() {
                Ok(ps) => ps,
                Err(e) => {
                    return Err(ParseFailure::Syntax(e));
                },
            }
        } else {
            let v: Vec<Param> = Vec::new();
            assert(params_view(v@) =~= Seq::<SpecParam>::empty());
            v
        };
        if let Err(e) = self.expect_kind(TokenKind::RParen) {
            return Err(ParseFailure::Syntax(e));
        }
        if let Err(e) = self.expect_kind(TokenKind::LBrace) {
            return Err(ParseFailure::Syntax(e));
        }
        let body = self.parse_body()?;
        if let Err(e) = self.expect_kind(TokenKind::RBrace) {
            return Err(ParseFailure::Syntax(e));
        }
        Ok(FunctionDecl { name, visibility, return_type, params, body })
    }

    /// The functions of the program, up to the end-of-input token.
    #[verifier::spinoff_prover]
    pub fn parse_program(&mut self) -> (r: Result<Program, ParseFailure>)
        requires
            old(self).wf(),
        ensures
            !(r matches Err(ParseFailure::NoProgress)),
            final(self).wf(),
            final(self).toks() == old(self).toks(),
            match r {
                Ok(prog) => p_program(old(self).toks(), old(self).at()) == Ok::<
                    Seq<SpecFunction>,
                    SpecParseFailure,
                >(prog@),
                Err(e) => p_program(old(self).toks(), old(self).at()) == Err::<
                    Seq<SpecFunction>,
                    SpecParseFailure,
                >(e@),
            },
    {
        let mut functions: Vec<FunctionDecl> = Vec::new();
        loop
            invariant
                self.wf(),
                self.toks() == old(self).toks(),
                old(self).at() <= self.at(),
                prepend_program(functions_view(functions@), p_program(self.toks(), self.at()))
                    == p_program(old(self).toks(), old(self).at()),
            ensures
                self.wf(),
                self.toks() == old(self).toks(),
                p_program(old(self).toks(), old(self).at()) == Ok::<Seq<SpecFunction>, SpecParseFailure>(
                    functions_view(functions@),
                ),
            decreases self.toks().len() - self.at(),
        {
            if let TokenKind::EOF = self.current_kind() {
                assert(functions_view(functions@) + Seq::<SpecFunction>::empty()
                    == functions_view(functions@));
                break;
            }
            let f = self.parse_function()?;
            let ghost prev = functions_view(functions@);
            let ghost v = f@;
            functions.push(f);
            assert(functions_view(functions@) == prev + seq![v]);
            proof {
                match p_program(self.toks(), self.at()) {
                    Ok(rest) => {
                        assert(prev + (seq![v] + rest) == (prev + seq![v]) + rest);
                    },
                    Err(_) => {},
                }
            }
        }
        Ok(Program { functions })
    }
}

/// `pre` in front of the statements of a body result.
pub open spec fn prepend_body(
    pre: Seq<SpecStmt>,
    r: Result<(Seq<SpecStmt>, int), SpecParseFailure>,
) -> Result<(Seq<SpecStmt>, int), SpecParseFailure> {
    match r {
        Ok((xs, q)) => Ok((pre + xs, q)),
        Err(e) => Err(e),
    }
}

/// `pre` in front of the functions of a program result.
pub open spec fn prepend_program(
    pre: Seq<SpecFunction>,
    r: Result<Seq<SpecFunction>, SpecParseFailure>,
) -> Result<Seq<SpecFunction>, SpecParseFailure> {
    match r {
        Ok(xs) => Ok(pre + xs),
        Err(e) => Err(e),
    }
}

/// The tokens of any text that lexes end with an end-of-input token, so a parser over them
/// can be asked for a program.
pub proof fn lemma_lexed_tokens_parsable(cs: Seq<char>)
    ensures
        spec_tokenize(cs) matches Ok(ts) ==> parsable(ts),
{
    lemma_tokens_end_with_eof(cs, LexState { pos: 0, line: 1, column: 1 });
}

} // verus!
