use vstd::prelude::*;

verus! {

/// The value types of the language.
#[derive(Debug, Clone, Copy, PartialEq, Eq, Structural)]
pub enum TypeName {
    Int,
    Bool,
    Void,
    String,
    Float,
    Double,
    Char,
}

/// Visibility written in front of a function.
#[derive(Debug, Clone, Copy, PartialEq, Eq, Structural)]
pub enum Visibility {
    Public,
    Private,
    Protected,
}

/// A function of a program.
#[derive(Debug)]
pub struct FunctionDecl {
    pub name: String,
    pub visibility: Visibility,
    pub return_type: TypeName,
    pub params: Vec<Param>,
    pub body: Vec<Stmt>,
}

/// A typed parameter of a function.
#[derive(Debug)]
pub struct Param {
    pub name: String,
    pub ty: TypeName,
}

/// A statement.
#[derive(Debug)]
pub enum Stmt {
    VarDecl { explicit_type: Option<TypeName>, name: String, init: Expr },
    Assign { name: String, expr: Expr },
    Return(Option<Expr>),
    ExprStmt(Expr),
    If { cond: Expr, then_body: Vec<Stmt>, else_body: Vec<Stmt> },
    While { cond: Expr, body: Vec<Stmt> },
    DoWhile { body: Vec<Stmt>, cond: Expr },
    For { init: Box<Stmt>, cond: Expr, step: Box<Stmt>, body: Vec<Stmt> },
    Switch { expr: Expr, cases: Vec<(Option<Expr>, Vec<Stmt>)> },
    Break,
    Continue,
    Empty,
}

impl Stmt {
    /// Whether this is the empty statement.
    pub fn is_empty(&self) -> (r: bool)
        ensures
            r == (self is Empty),
    {
        match self {
            Stmt::Empty => true,
            _ => false,
        }
    }
}

/// An expression. A floating-point literal is kept as the decimal text that denotes it.
#[derive(Debug)]
pub enum Expr {
    Number(i64),
    Float(String),
    BoolLiteral(bool),
    StringLiteral(String),
    CharLiteral(char),
    Var(String),
    Call { name: String, args: Vec<Expr> },
    Binary { op: BinOp, left: Box<Expr>, right: Box<Expr> },
    Unary { op: UnaryOp, expr: Box<Expr> },
    Ternary { cond: Box<Expr>, then_expr: Box<Expr>, else_expr: Box<Expr> },
    Paren(Box<Expr>),
}

/// Binary operators.
#[derive(Debug, Clone, Copy, PartialEq, Eq, Structural)]
pub enum BinOp {
    Add,
    Sub,
    Mul,
    Div,
    Mod,
    Less,
    Greater,
    LessEqual,
    GreaterEqual,
    Equal,
    NotEqual,
    And,
    Or,
}

/// Unary operators.
#[derive(Debug, Clone, Copy, PartialEq, Eq, Structural)]
pub enum UnaryOp {
    Neg,
    Not,
    PostInc,
    PostDec,
    PreInc,
    PreDec,
}

/// The kinds of token. A floating-point literal is kept as the decimal text that denotes it.
#[derive(Debug, Clone, PartialEq)]
pub enum TokenKind {
    Public,
    Private,
    Protected,
    Funct,
    Var,
    Int,
    Bool,
    Void,
    StringType,
    Float,
    Double,
    CharType,
    If,
    Else,
    While,
    DoWhile,
    For,
    Switch,
    Case,
    Default,
    Break,
    Continue,
    Return,
    True,
    False,
    Ident(String),
    Number(i64),
    FloatLit(String),
    StringLit(String),
    CharLit(char),
    LParen,
    RParen,
    LBrace,
    RBrace,
    LBracket,
    RBracket,
    Semicolon,
    Comma,
    Colon,
    Question,
    Equal,
    Plus,
    Minus,
    Star,
    Slash,
    Percent,
    Less,
    Greater,
    Bang,
    EqualEqual,
    BangEqual,
    LessEqual,
    GreaterEqual,
    AndAnd,
    OrOr,
    PlusPlus,
    MinusMinus,
    Comment,
    EOF,
}

/// A token with the line and column of its first character.
#[derive(Debug, Clone)]
pub struct Token {
    pub kind: TokenKind,
    pub line: usize,
    pub column: usize,
}

/// A whole program: its functions in source order.
#[derive(Debug)]
pub struct Program {
    pub functions: Vec<FunctionDecl>,
}

/// The source spelling of a type.
pub fn format_type(ty: TypeName) -> (r: &'static str)
    ensures
        r@ == spec_format_type(ty),
{
    match ty {
        TypeName::Int => "int",
        TypeName::Bool => "bool",
        TypeName::Void => "void",
        TypeName::String => "string",
        TypeName::Float => "float",
        TypeName::Double => "double",
        TypeName::Char => "char",
    }
}

pub open spec fn spec_format_type(ty: TypeName) -> Seq<char> {
    match ty {
        TypeName::Int => "int"@,
        TypeName::Bool => "bool"@,
        TypeName::Void => "void"@,
        TypeName::String => "string"@,
        TypeName::Float => "float"@,
        TypeName::Double => "double"@,
        TypeName::Char => "char"@,
    }
}

// ---------------------------------------------------------------------------
// Mathematical models: the same shapes, with text as `Seq<char>` and lists as `Seq`.

/// Model of a token kind.
pub enum SpecTokenKind {
    Public,
    Private,
    Protected,
    Funct,
    Var,
    Int,
    Bool,
    Void,
    StringType,
    Float,
    Double,
    CharType,
    If,
    Else,
    While,
    DoWhile,
    For,
    Switch,
    Case,
    Default,
    Break,
    Continue,
    Return,
    True,
    False,
    Ident(Seq<char>),
    Number(i64),
    FloatLit(Seq<char>),
    StringLit(Seq<char>),
    CharLit(char),
    LParen,
    RParen,
    LBrace,
    RBrace,
    LBracket,
    RBracket,
    Semicolon,
    Comma,
    Colon,
    Question,
    Equal,
    Plus,
    Minus,
    Star,
    Slash,
    Percent,
    Less,
    Greater,
    Bang,
    EqualEqual,
    BangEqual,
    LessEqual,
    GreaterEqual,
    AndAnd,
    OrOr,
    PlusPlus,
    MinusMinus,
    Comment,
    EOF,
}

/// Model of a token.
pub struct SpecToken {
    pub kind: SpecTokenKind,
    pub line: usize,
    pub column: usize,
}

impl View for TokenKind {
    type V = SpecTokenKind;

    open spec fn view(&self) -> SpecTokenKind {
        match *self {

            TokenKind::Public => SpecTokenKind::Public,
            TokenKind::Private => SpecTokenKind::Private,
            TokenKind::Protected => SpecTokenKind::Protected,
            TokenKind::Funct => SpecTokenKind::Funct,
            TokenKind::Var => SpecTokenKind::Var,
            TokenKind::Int => SpecTokenKind::Int,
            TokenKind::Bool => SpecTokenKind::Bool,
            TokenKind::Void => SpecTokenKind::Void,
            TokenKind::StringType => SpecTokenKind::StringType,
            TokenKind::Float => SpecTokenKind::Float,
            TokenKind::Double => SpecTokenKind::Double,
            TokenKind::CharType => SpecTokenKind::CharType,
            TokenKind::If => SpecTokenKind::If,
            TokenKind::Else => SpecTokenKind::Else,
            TokenKind::While => SpecTokenKind::While,
            TokenKind::DoWhile => SpecTokenKind::DoWhile,
            TokenKind::For => SpecTokenKind::For,
            TokenKind::Switch => SpecTokenKind::Switch,
            TokenKind::Case => SpecTokenKind::Case,
            TokenKind::Default => SpecTokenKind::Default,
            TokenKind::Break => SpecTokenKind::Break,
            TokenKind::Continue => SpecTokenKind::Continue,
            TokenKind::Return => SpecTokenKind::Return,
            TokenKind::True => SpecTokenKind::True,
            TokenKind::False => SpecTokenKind::False,
            TokenKind::Ident(s) => SpecTokenKind::Ident(s@),
            TokenKind::Number(v) => SpecTokenKind::Number(v),
            TokenKind::FloatLit(s) => SpecTokenKind::FloatLit(s@),
            TokenKind::StringLit(s) => SpecTokenKind::StringLit(s@),
            TokenKind::CharLit(v) => SpecTokenKind::CharLit(v),
            TokenKind::LParen => SpecTokenKind::LParen,
            TokenKind::RParen => SpecTokenKind::RParen,
            TokenKind::LBrace => SpecTokenKind::LBrace,
            TokenKind::RBrace => SpecTokenKind::RBrace,
            TokenKind::LBracket => SpecTokenKind::LBracket,
            TokenKind::RBracket => SpecTokenKind::RBracket,
            TokenKind::Semicolon => SpecTokenKind::Semicolon,
            TokenKind::Comma => SpecTokenKind::Comma,
            TokenKind::Colon => SpecTokenKind::Colon,
            TokenKind::Question => SpecTokenKind::Question,
            TokenKind::Equal => SpecTokenKind::Equal,
            TokenKind::Plus => SpecTokenKind::Plus,
            TokenKind::Minus => SpecTokenKind::Minus,
            TokenKind::Star => SpecTokenKind::Star,
            TokenKind::Slash => SpecTokenKind::Slash,
            TokenKind::Percent => SpecTokenKind::Percent,
            TokenKind::Less => SpecTokenKind::Less,
            TokenKind::Greater => SpecTokenKind::Greater,
            TokenKind::Bang => SpecTokenKind::Bang,
            TokenKind::EqualEqual => SpecTokenKind::EqualEqual,
            TokenKind::BangEqual => SpecTokenKind::BangEqual,
            TokenKind::LessEqual => SpecTokenKind::LessEqual,
            TokenKind::GreaterEqual => SpecTokenKind::GreaterEqual,
            TokenKind::AndAnd => SpecTokenKind::AndAnd,
            TokenKind::OrOr => SpecTokenKind::OrOr,
            TokenKind::PlusPlus => SpecTokenKind::PlusPlus,
            TokenKind::MinusMinus => SpecTokenKind::MinusMinus,
            TokenKind::Comment => SpecTokenKind::Comment,
            TokenKind::EOF => SpecTokenKind::EOF,
        }
    }
}

impl View for Token {
    type V = SpecToken;

    open spec fn view(&self) -> SpecToken {
        SpecToken { kind: self.kind@, line: self.line, column: self.column }
    }
}

/// Model of an expression.
pub enum SpecExpr {
    Number(i64),
    Float(Seq<char>),
    BoolLiteral(bool),
    StringLiteral(Seq<char>),
    CharLiteral(char),
    Var(Seq<char>),
    Call { name: Seq<char>, args: Seq<SpecExpr> },
    Binary { op: BinOp, left: Box<SpecExpr>, right: Box<SpecExpr> },
    Unary { op: UnaryOp, expr: Box<SpecExpr> },
    Ternary { cond: Box<SpecExpr>, then_expr: Box<SpecExpr>, else_expr: Box<SpecExpr> },
    Paren(Box<SpecExpr>),
}

/// Model of a statement.
pub enum SpecStmt {
    VarDecl { explicit_type: Option<TypeName>, name: Seq<char>, init: SpecExpr },
    Assign { name: Seq<char>, expr: SpecExpr },
    Return(Option<SpecExpr>),
    ExprStmt(SpecExpr),
    If { cond: SpecExpr, then_body: Seq<SpecStmt>, else_body: Seq<SpecStmt> },
    While { cond: SpecExpr, body: Seq<SpecStmt> },
    DoWhile { body: Seq<SpecStmt>, cond: SpecExpr },
    For { init: Box<SpecStmt>, cond: SpecExpr, step: Box<SpecStmt>, body: Seq<SpecStmt> },
    Switch { expr: SpecExpr, cases: Seq<(Option<SpecExpr>, Seq<SpecStmt>)> },
    Break,
    Continue,
    Empty,
}

/// Model of a parameter.
pub struct SpecParam {
    pub name: Seq<char>,
    pub ty: TypeName,
}

/// Model of a function.
pub struct SpecFunction {
    pub name: Seq<char>,
    pub visibility: Visibility,
    pub return_type: TypeName,
    pub params: Seq<SpecParam>,
    pub body: Seq<SpecStmt>,
}

pub open spec fn expr_view(e: Expr) -> SpecExpr
    decreases e,
{
    match e {
        Expr::Number(n) => SpecExpr::Number(n),
        Expr::Float(s) => SpecExpr::Float(s@),
        Expr::BoolLiteral(b) => SpecExpr::BoolLiteral(b),
        Expr::StringLiteral(s) => SpecExpr::StringLiteral(s@),
        Expr::CharLiteral(c) => SpecExpr::CharLiteral(c),
        Expr::Var(s) => SpecExpr::Var(s@),
        Expr::Call { name, args } => SpecExpr::Call { name: name@, args: exprs_view(args@) },
        Expr::Binary { op, left, right } => SpecExpr::Binary {
            op,
            left: Box::new(expr_view(*left)),
            right: Box::new(expr_view(*right)),
        },
        Expr::Unary { op, expr } => SpecExpr::Unary { op, expr: Box::new(expr_view(*expr)) },
        Expr::Ternary { cond, then_expr, else_expr } => SpecExpr::Ternary {
            cond: Box::new(expr_view(*cond)),
            then_expr: Box::new(expr_view(*then_expr)),
            else_expr: Box::new(expr_view(*else_expr)),
        },
        Expr::Paren(inner) => SpecExpr::Paren(Box::new(expr_view(*inner))),
    }
}

pub open spec fn exprs_view(s: Seq<Expr>) -> Seq<SpecExpr>
    decreases s,
{
    if s.len() == 0 {
        Seq::empty()
    } else {
        seq![expr_view(s[0])] + exprs_view(s.drop_first())
    }
}


pub open spec fn opt_expr_view(o: Option<Expr>) -> Option<SpecExpr> {
    match o {
        Some(e) => Some(expr_view(e)),
        None => None,
    }
}

pub open spec fn stmt_view(s: Stmt) -> SpecStmt
    decreases s,
{
    match s {
        Stmt::VarDecl { explicit_type, name, init } => SpecStmt::VarDecl {
            explicit_type,
            name: name@,
            init: expr_view(init),
        },
        Stmt::Assign { name, expr } => SpecStmt::Assign { name: name@, expr: expr_view(expr) },
        Stmt::Return(o) => SpecStmt::Return(
            match o {
                Some(e) => Some(expr_view(e)),
                None => None,
            },
        ),
        Stmt::ExprStmt(e) => SpecStmt::ExprStmt(expr_view(e)),
        Stmt::If { cond, then_body, else_body } => SpecStmt::If {
            cond: expr_view(cond),
            then_body: stmts_view(then_body@),
            else_body: stmts_view(else_body@),
        },
        Stmt::While { cond, body } => SpecStmt::While {
            cond: expr_view(cond),
            body: stmts_view(body@),
        },
        Stmt::DoWhile { body, cond } => SpecStmt::DoWhile {
            body: stmts_view(body@),
            cond: expr_view(cond),
        },
        Stmt::For { init, cond, step, body } => SpecStmt::For {
            init: Box::new(stmt_view(*init)),
            cond: expr_view(cond),
            step: Box::new(stmt_view(*step)),
            body: stmts_view(body@),
        },
        Stmt::Switch { expr, cases } => SpecStmt::Switch {
            expr: expr_view(expr),
            cases: cases_view(cases@),
        },
        Stmt::Break => SpecStmt::Break,
        Stmt::Continue => SpecStmt::Continue,
        Stmt::Empty => SpecStmt::Empty,
    }
}

pub open spec fn stmts_view(s: Seq<Stmt>) -> Seq<SpecStmt>
    decreases s,
{
    if s.len() == 0 {
        Seq::empty()
    } else {
        seq![stmt_view(s[0])] + stmts_view(s.drop_first())
    }
}

pub open spec fn cases_view(s: Seq<(Option<Expr>, Vec<Stmt>)>) -> Seq<(Option<SpecExpr>, Seq<SpecStmt>)>
    decreases s,
{
    if s.len() == 0 {
        Seq::empty()
    } else {
        seq![
            (
                match s[0].0 {
                    Some(e) => Some(expr_view(e)),
                    None => None,
                },
                stmts_view(s[0].1@),
            ),
        ] + cases_view(s.drop_first())
    }
}

impl View for Expr {
    type V = SpecExpr;

    open spec fn view(&self) -> SpecExpr {
        expr_view(*self)
    }
}

impl View for Stmt {
    type V = SpecStmt;

    open spec fn view(&self) -> SpecStmt {
        stmt_view(*self)
    }
}

impl View for Param {
    type V = SpecParam;

    open spec fn view(&self) -> SpecParam {
        SpecParam { name: self.name@, ty: self.ty }
    }
}

pub open spec fn params_view(s: Seq<Param>) -> Seq<SpecParam> {
    s.map_values(|p: Param| p@)
}

impl View for FunctionDecl {
    type V = SpecFunction;

    open spec fn view(&self) -> SpecFunction {
        SpecFunction {
            name: self.name@,
            visibility: self.visibility,
            return_type: self.return_type,
            params: params_view(self.params@),
            body: stmts_view(self.body@),
        }
    }
}

pub open spec fn functions_view(s: Seq<FunctionDecl>) -> Seq<SpecFunction> {
    s.map_values(|f: FunctionDecl| f@)
}

impl View for Program {
    type V = Seq<SpecFunction>;

    open spec fn view(&self) -> Seq<SpecFunction> {
        functions_view(self.functions@)
    }
}

pub open spec fn tokens_view(s: Seq<Token>) -> Seq<SpecToken> {
    s.map_values(|t: Token| t@)
}

pub proof fn lemma_exprs_view_push(s: Seq<Expr>, x: Expr)
    ensures
        exprs_view(s.push(x)) == exprs_view(s) + seq![expr_view(x)],
    decreases s.len(),
{
    if s.len() > 0 {
        lemma_exprs_view_push(s.drop_first(), x);
        assert(s.push(x).drop_first() == s.drop_first().push(x));
    } else {
        assert(s.push(x).drop_first() == s);
    }
}

pub proof fn lemma_stmts_view_push(s: Seq<Stmt>, x: Stmt)
    ensures
        stmts_view(s.push(x)) == stmts_view(s) + seq![stmt_view(x)],
    decreases s.len(),
{
    if s.len() > 0 {
        lemma_stmts_view_push(s.drop_first(), x);
        assert(s.push(x).drop_first() == s.drop_first().push(x));
    } else {
        assert(s.push(x).drop_first() == s);
    }
}

pub proof fn lemma_cases_view_push(s: Seq<(Option<Expr>, Vec<Stmt>)>, x: (Option<Expr>, Vec<Stmt>))
    ensures
        cases_view(s.push(x)) == cases_view(s) + cases_view(seq![x]),
    decreases s.len(),
{
    if s.len() > 0 {
        lemma_cases_view_push(s.drop_first(), x);
        assert(s.push(x).drop_first() == s.drop_first().push(x));
        assert(s.push(x)[0] == s[0]);
    } else {
        assert(s.push(x) =~= seq![x]);
        assert(seq![x].drop_first() =~= Seq::<(Option<Expr>, Vec<Stmt>)>::empty());
        assert(cases_view(Seq::<(Option<Expr>, Vec<Stmt>)>::empty()) =~= Seq::empty());
    }
}

pub proof fn lemma_exprs_view_index(s: Seq<Expr>)
    ensures
        exprs_view(s).len() == s.len(),
        forall|i: int| 0 <= i < s.len() ==> #[trigger] exprs_view(s)[i] == expr_view(s[i]),
    decreases s.len(),
{
    if s.len() > 0 {
        lemma_exprs_view_index(s.drop_first());
    }
}

pub proof fn lemma_stmts_view_index(s: Seq<Stmt>)
    ensures
        stmts_view(s).len() == s.len(),
        forall|i: int| 0 <= i < s.len() ==> #[trigger] stmts_view(s)[i] == stmt_view(s[i]),
    decreases s.len(),
{
    if s.len() > 0 {
        lemma_stmts_view_index(s.drop_first());
    }
}

pub proof fn lemma_cases_view_index(s: Seq<(Option<Expr>, Vec<Stmt>)>)
    ensures
        cases_view(s).len() == s.len(),
        forall|i: int|
            0 <= i < s.len() ==> #[trigger] cases_view(s)[i] == (
            opt_expr_view(s[i].0),
            stmts_view(s[i].1@),
        ),
    decreases s.len(),
{
    if s.len() > 0 {
        lemma_cases_view_index(s.drop_first());
    }
}

} // verus!
