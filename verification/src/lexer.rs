use vstd::prelude::*;
use crate::ast::{SpecToken, SpecTokenKind, Token, TokenKind, tokens_view};
use crate::error::{CompileError, SpecCompileError, spec_error_at};
use crate::text::{chars_of, chars_eq_str, string_of, push_str};
use vstd::string::StringExecFns;

verus! {

// ---------------------------------------------------------------------------
// Character classes.

/// std's `char::is_whitespace`: the characters with the Unicode `White_Space` property.
pub open spec fn spec_is_whitespace(c: char) -> bool {
    let u = c as u32;
    ||| 0x09 <= u <= 0x0d
    ||| u == 0x20
    ||| u == 0x85
    ||| u == 0xa0
    ||| u == 0x1680
    ||| 0x2000 <= u <= 0x200a
    ||| u == 0x2028
    ||| u == 0x2029
    ||| u == 0x202f
    ||| u == 0x205f
    ||| u == 0x3000
}

pub open spec fn spec_is_digit(c: char) -> bool {
    '0' <= c <= '9'
}

pub open spec fn spec_is_alpha(c: char) -> bool {
    ('a' <= c <= 'z') || ('A' <= c <= 'Z')
}

pub open spec fn spec_is_ident_char(c: char) -> bool {
    spec_is_alpha(c) || spec_is_digit(c) || c == '_'
}

pub(crate) fn is_whitespace(c: char) -> (r: bool)
    ensures
        r == spec_is_whitespace(c),
{
    let u = c as u32;
    (0x09 <= u && u <= 0x0d) || u == 0x20 || u == 0x85 || u == 0xa0 || u == 0x1680 || (0x2000
        <= u && u <= 0x200a) || u == 0x2028 || u == 0x2029 || u == 0x202f || u == 0x205f || u
        == 0x3000
}

fn is_digit(c: char) -> (r: bool)
    ensures
        r == spec_is_digit(c),
{
    '0' <= c && c <= '9'
}

fn is_alpha(c: char) -> (r: bool)
    ensures
        r == spec_is_alpha(c),
{
    ('a' <= c && c <= 'z') || ('A' <= c && c <= 'Z')
}

// ---------------------------------------------------------------------------
// Model of the lexer.

/// Where the lexer stands: index of the next character, and the line and column of it.
pub struct LexState {
    pub pos: int,
    pub line: int,
    pub column: int,
}

/// The state after consuming one character: a newline starts a new line at column 1.
pub open spec fn bump_state(cs: Seq<char>, st: LexState) -> LexState {
    if 0 <= st.pos < cs.len() {
        if cs[st.pos] == '\n' {
            LexState { pos: st.pos + 1, line: st.line + 1, column: 1 }
        } else {
            LexState { pos: st.pos + 1, line: st.line, column: st.column + 1 }
        }
    } else {
        st
    }
}

pub open spec fn peek_at(cs: Seq<char>, st: LexState) -> Option<char> {
    if 0 <= st.pos < cs.len() {
        Some(cs[st.pos])
    } else {
        None
    }
}

/// Consumes characters up to, not including, the next newline.
pub open spec fn skip_line(cs: Seq<char>, st: LexState) -> LexState
    decreases cs.len() - st.pos,
{
    if 0 <= st.pos < cs.len() && cs[st.pos] != '\n' {
        skip_line(cs, bump_state(cs, st))
    } else {
        st
    }
}

/// Consumes the digits of a number, with at most one `.`; says whether a `.` was seen.
pub open spec fn number_scan(cs: Seq<char>, st: LexState, has_dot: bool) -> (LexState, bool)
    decreases cs.len() - st.pos,
{
    if 0 <= st.pos < cs.len() && (spec_is_digit(cs[st.pos]) || (cs[st.pos] == '.' && !has_dot)) {
        number_scan(cs, bump_state(cs, st), has_dot || cs[st.pos] == '.')
    } else {
        (st, has_dot)
    }
}

/// Value of a string of decimal digits.
pub open spec fn decimal_value(s: Seq<char>) -> nat
    decreases s.len(),
{
    if s.len() == 0 {
        0
    } else {
        decimal_value(s.drop_last()) * 10 + ((s.last() as u32) - 48) as nat
    }
}

/// Consumes the letters, digits and underscores of a word.
pub open spec fn ident_scan(cs: Seq<char>, st: LexState) -> LexState
    decreases cs.len() - st.pos,
{
    if 0 <= st.pos < cs.len() && spec_is_ident_char(cs[st.pos]) {
        ident_scan(cs, bump_state(cs, st))
    } else {
        st
    }
}

/// The character an escape `\c` stands for.
pub open spec fn unescape(c: char) -> char {
    if c == 'n' {
        '\n'
    } else if c == 'r' {
        '\r'
    } else if c == 't' {
        '\t'
    } else {
        c
    }
}

/// Consumes the rest of a string literal after its opening quote, collecting its text into
/// `acc`; `None` when the input ends before the closing quote.
pub open spec fn string_scan(cs: Seq<char>, st: LexState, acc: Seq<char>) -> (
    Option<Seq<char>>,
    LexState,
)
    decreases cs.len() - st.pos,
{
    if 0 <= st.pos < cs.len() {
        let c = cs[st.pos];
        let s1 = bump_state(cs, st);
        if c == '"' {
            (Some(acc), s1)
        } else if c == '\\' {
            if s1.pos < cs.len() {
                string_scan(cs, bump_state(cs, s1), acc.push(unescape(cs[s1.pos])))
            } else {
                (None, s1)
            }
        } else {
            string_scan(cs, s1, acc.push(c))
        }
    } else {
        (None, st)
    }
}

/// A token kind together with the state after it.
pub type LexOutcome = Result<(SpecTokenKind, LexState), SpecCompileError>;

/// A number at `st`: a float literal when it holds a `.`, else an integer that must fit
/// in `i64`.
pub open spec fn spec_lex_number(cs: Seq<char>, st: LexState) -> LexOutcome {
    let (s2, has_dot) = number_scan(cs, st, false);
    let text = cs.subrange(st.pos, s2.pos);
    if has_dot {
        Ok((SpecTokenKind::FloatLit(text), s2))
    } else if decimal_value(text) <= i64::MAX {
        Ok((SpecTokenKind::Number(decimal_value(text) as i64), s2))
    } else {
        Err(spec_error_at("invalid integer literal"@, s2.line as usize, s2.column as usize))
    }
}

/// A string literal whose opening quote is at `st`.
pub open spec fn spec_lex_string(cs: Seq<char>, st: LexState) -> LexOutcome {
    match string_scan(cs, bump_state(cs, st), Seq::empty()) {
        (Some(text), s2) => Ok((SpecTokenKind::StringLit(text), s2)),
        (None, s2) => Err(
            spec_error_at("unterminated string literal"@, s2.line as usize, s2.column as usize),
        ),
    }
}

/// A character literal whose opening quote is at `st`.
pub open spec fn spec_lex_char(cs: Seq<char>, st: LexState) -> LexOutcome {
    let s1 = bump_state(cs, st);
    let err = |s: LexState|
        Err(spec_error_at("unterminated char literal"@, s.line as usize, s.column as usize));
    if s1.pos >= cs.len() {
        err(s1)
    } else {
        let c = cs[s1.pos];
        let s2 = bump_state(cs, s1);
        if c == '\\' && s2.pos >= cs.len() {
            err(s2)
        } else {
            let ch = if c == '\\' {
                unescape(cs[s2.pos])
            } else {
                c
            };
            let s3 = if c == '\\' {
                bump_state(cs, s2)
            } else {
                s2
            };
            let s4 = bump_state(cs, s3);
            if s3.pos < cs.len() && cs[s3.pos] == '\'' {
                Ok((SpecTokenKind::CharLit(ch), s4))
            } else {
                err(s4)
            }
        }
    }
}

/// The keyword that a word spells, or an identifier.
pub open spec fn keyword_kind(s: Seq<char>) -> SpecTokenKind {
    if s == "public"@ {
        SpecTokenKind::Public
    } else if s == "private"@ {
        SpecTokenKind::Private
    } else if s == "protected"@ {
        SpecTokenKind::Protected
    } else if s == "funct"@ {
        SpecTokenKind::Funct
    } else if s == "var"@ {
        SpecTokenKind::Var
    } else if s == "int"@ {
        SpecTokenKind::Int
    } else if s == "bool"@ {
        SpecTokenKind::Bool
    } else if s == "void"@ {
        SpecTokenKind::Void
    } else if s == "string"@ {
        SpecTokenKind::StringType
    } else if s == "float"@ {
        SpecTokenKind::Float
    } else if s == "double"@ {
        SpecTokenKind::Double
    } else if s == "char"@ {
        SpecTokenKind::CharType
    } else if s == "if"@ {
        SpecTokenKind::If
    } else if s == "else"@ {
        SpecTokenKind::Else
    } else if s == "while"@ {
        SpecTokenKind::While
    } else if s == "do"@ {
        SpecTokenKind::DoWhile
    } else if s == "for"@ {
        SpecTokenKind::For
    } else if s == "switch"@ {
        SpecTokenKind::Switch
    } else if s == "case"@ {
        SpecTokenKind::Case
    } else if s == "default"@ {
        SpecTokenKind::Default
    } else if s == "break"@ {
        SpecTokenKind::Break
    } else if s == "continue"@ {
        SpecTokenKind::Continue
    } else if s == "return"@ {
        SpecTokenKind::Return
    } else if s == "true"@ {
        SpecTokenKind::True
    } else if s == "false"@ {
        SpecTokenKind::False
    } else {
        SpecTokenKind::Ident(s)
    }
}

/// The kind of a token that is a single character standing for itself.
pub open spec fn single_char_kind(c: char) -> Option<SpecTokenKind> {
    if c == '(' {
        Some(SpecTokenKind::LParen)
    } else if c == ')' {
        Some(SpecTokenKind::RParen)
    } else if c == '{' {
        Some(SpecTokenKind::LBrace)
    } else if c == '}' {
        Some(SpecTokenKind::RBrace)
    } else if c == '[' {
        Some(SpecTokenKind::LBracket)
    } else if c == ']' {
        Some(SpecTokenKind::RBracket)
    } else if c == ';' {
        Some(SpecTokenKind::Semicolon)
    } else if c == ',' {
        Some(SpecTokenKind::Comma)
    } else if c == ':' {
        Some(SpecTokenKind::Colon)
    } else if c == '?' {
        Some(SpecTokenKind::Question)
    } else if c == '*' {
        Some(SpecTokenKind::Star)
    } else if c == '%' {
        Some(SpecTokenKind::Percent)
    } else {
        None
    }
}

/// For an operator character that may be doubled or followed by `=`: the second character,
/// the kind of the two-character token, and the kind of the one-character token.
pub open spec fn pair_kind(c: char) -> Option<(char, SpecTokenKind, SpecTokenKind)> {
    if c == '+' {
        Some(('+', SpecTokenKind::PlusPlus, SpecTokenKind::Plus))
    } else if c == '-' {
        Some(('-', SpecTokenKind::MinusMinus, SpecTokenKind::Minus))
    } else if c == '=' {
        Some(('=', SpecTokenKind::EqualEqual, SpecTokenKind::Equal))
    } else if c == '!' {
        Some(('=', SpecTokenKind::BangEqual, SpecTokenKind::Bang))
    } else if c == '<' {
        Some(('=', SpecTokenKind::LessEqual, SpecTokenKind::Less))
    } else if c == '>' {
        Some(('=', SpecTokenKind::GreaterEqual, SpecTokenKind::Greater))
    } else {
        None
    }
}

/// One step of the lexer at a character: skip it (and what belongs to it), emit a token,
/// or fail.
pub enum LexStep {
    Skip(LexState),
    Emit(SpecTokenKind, LexState),
    Fail(SpecCompileError),
}

pub open spec fn outcome_step(o: LexOutcome) -> LexStep {
    match o {
        Ok((k, s)) => LexStep::Emit(k, s),
        Err(e) => LexStep::Fail(e),
    }
}

/// The step taken at the character under `st`.
pub open spec fn lex_step(cs: Seq<char>, st: LexState) -> LexStep {
    let c = cs[st.pos];
    let s1 = bump_state(cs, st);
    let fail_here = |m: Seq<char>|
        LexStep::Fail(spec_error_at(m, st.line as usize, st.column as usize));
    if spec_is_whitespace(c) {
        LexStep::Skip(s1)
    } else if single_char_kind(c) is Some {
        LexStep::Emit(single_char_kind(c)->0, s1)
    } else if pair_kind(c) is Some {
        let (second, two, one) = pair_kind(c)->0;
        if peek_at(cs, s1) == Some(second) {
            LexStep::Emit(two, bump_state(cs, s1))
        } else {
            LexStep::Emit(one, s1)
        }
    } else if c == '/' {
        if peek_at(cs, s1) == Some('/') {
            LexStep::Skip(skip_line(cs, s1))
        } else {
            LexStep::Emit(SpecTokenKind::Slash, s1)
        }
    } else if c == '#' {
        LexStep::Skip(skip_line(cs, st))
    } else if c == '"' {
        outcome_step(spec_lex_string(cs, st))
    } else if c == '\'' {
        outcome_step(spec_lex_char(cs, st))
    } else if c == '&' {
        if peek_at(cs, s1) == Some('&') {
            LexStep::Emit(SpecTokenKind::AndAnd, bump_state(cs, s1))
        } else {
            fail_here("unexpected '&'"@)
        }
    } else if c == '|' {
        if peek_at(cs, s1) == Some('|') {
            LexStep::Emit(SpecTokenKind::OrOr, bump_state(cs, s1))
        } else {
            fail_here("unexpected '|'"@)
        }
    } else if spec_is_digit(c) {
        outcome_step(spec_lex_number(cs, st))
    } else if spec_is_alpha(c) || c == '_' {
        let s2 = ident_scan(cs, st);
        LexStep::Emit(keyword_kind(cs.subrange(st.pos, s2.pos)), s2)
    } else {
        fail_here("unexpected character '"@ + seq![c] + "'"@)
    }
}

/// The token of kind `k` that starts at `st`.
pub open spec fn token_at(k: SpecTokenKind, st: LexState) -> SpecToken {
    SpecToken { kind: k, line: st.line as usize, column: st.column as usize }
}

/// The tokens of `cs` from `st` on, ending with an end-of-input token at the place where the
/// input ends; or the first error.
pub open spec fn lex_from(cs: Seq<char>, st: LexState) -> Result<Seq<SpecToken>, SpecCompileError>
    decreases cs.len() - st.pos,
    via lex_from_decreases
{
    if st.pos < 0 || st.pos >= cs.len() {
        Ok(seq![token_at(SpecTokenKind::EOF, st)])
    } else {
        match lex_step(cs, st) {
            LexStep::Skip(s2) => lex_from(cs, s2),
            LexStep::Emit(k, s2) => match lex_from(cs, s2) {
                Ok(ts) => Ok(seq![token_at(k, st)] + ts),
                Err(e) => Err(e),
            },
            LexStep::Fail(e) => Err(e),
        }
    }
}

#[via_fn]
proof fn lex_from_decreases(cs: Seq<char>, st: LexState) {
    if 0 <= st.pos < cs.len() {
        lemma_step_advances(cs, st);
    }
}

/// The tokens of a whole text.
pub open spec fn spec_tokenize(cs: Seq<char>) -> Result<Seq<SpecToken>, SpecCompileError> {
    lex_from(cs, LexState { pos: 0, line: 1, column: 1 })
}

/// A state within the input whose line and column are at least 1 and at most one more than
/// the number of characters before it.
pub open spec fn placed(cs: Seq<char>, st: LexState) -> bool {
    &&& 0 <= st.pos <= cs.len()
    &&& 1 <= st.line <= st.pos + 1
    &&& 1 <= st.column <= st.pos + 1
}

proof fn lemma_skip_line(cs: Seq<char>, st: LexState)
    requires
        0 <= st.pos <= cs.len(),
    ensures
        st.pos <= skip_line(cs, st).pos <= cs.len(),
        placed(cs, st) ==> placed(cs, skip_line(cs, st)),
    decreases cs.len() - st.pos,
{
    if 0 <= st.pos < cs.len() && cs[st.pos] != '\n' {
        lemma_skip_line(cs, bump_state(cs, st));
    }
}

proof fn lemma_number_scan(cs: Seq<char>, st: LexState, has_dot: bool)
    requires
        0 <= st.pos <= cs.len(),
    ensures
        st.pos <= number_scan(cs, st, has_dot).0.pos <= cs.len(),
        placed(cs, st) ==> placed(cs, number_scan(cs, st, has_dot).0),
        st.pos < cs.len() && spec_is_digit(cs[st.pos]) ==> st.pos < number_scan(
            cs,
            st,
            has_dot,
        ).0.pos,
    decreases cs.len() - st.pos,
{
    if 0 <= st.pos < cs.len() && (spec_is_digit(cs[st.pos]) || (cs[st.pos] == '.' && !has_dot)) {
        lemma_number_scan(cs, bump_state(cs, st), has_dot || cs[st.pos] == '.');
    }
}

proof fn lemma_ident_scan(cs: Seq<char>, st: LexState)
    requires
        0 <= st.pos <= cs.len(),
    ensures
        st.pos <= ident_scan(cs, st).pos <= cs.len(),
        placed(cs, st) ==> placed(cs, ident_scan(cs, st)),
        st.pos < cs.len() && spec_is_ident_char(cs[st.pos]) ==> st.pos < ident_scan(cs, st).pos,
    decreases cs.len() - st.pos,
{
    if 0 <= st.pos < cs.len() && spec_is_ident_char(cs[st.pos]) {
        lemma_ident_scan(cs, bump_state(cs, st));
    }
}

proof fn lemma_string_scan(cs: Seq<char>, st: LexState, acc: Seq<char>)
    requires
        0 <= st.pos <= cs.len(),
    ensures
        st.pos <= string_scan(cs, st, acc).1.pos <= cs.len(),
        placed(cs, st) ==> placed(cs, string_scan(cs, st, acc).1),
    decreases cs.len() - st.pos,
{
    if 0 <= st.pos < cs.len() {
        let c = cs[st.pos];
        let s1 = bump_state(cs, st);
        if c == '"' {
        } else if c == '\\' {
            if s1.pos < cs.len() {
                lemma_string_scan(cs, bump_state(cs, s1), acc.push(unescape(cs[s1.pos])));
            }
        } else {
            lemma_string_scan(cs, s1, acc.push(c));
        }
    }
}

/// Every step that does not fail moves forward and stays within the input.
pub proof fn lemma_step_advances(cs: Seq<char>, st: LexState)
    requires
        0 <= st.pos < cs.len(),
    ensures
        match lex_step(cs, st) {
            LexStep::Skip(s2) => st.pos < s2.pos <= cs.len(),
            LexStep::Emit(_, s2) => st.pos < s2.pos <= cs.len(),
            LexStep::Fail(_) => true,
        },
        placed(cs, st) && cs.len() < usize::MAX ==> match lex_step(cs, st) {
            LexStep::Skip(s2) => placed(cs, s2),
            LexStep::Emit(_, s2) => placed(cs, s2),
            LexStep::Fail(e) => e.line >= 1 && e.column >= 1,
        },
{
    let s1 = bump_state(cs, st);
    lemma_skip_line(cs, s1);
    lemma_skip_line(cs, st);
    lemma_number_scan(cs, st, false);
    lemma_ident_scan(cs, st);
    lemma_string_scan(cs, s1, Seq::empty());
}


/// Whether an executable lexing result agrees with its model: the same kind and the same
/// state after it, or the same error.
pub open spec fn lexed(r: Result<TokenKind, CompileError>, st: LexState, o: LexOutcome) -> bool {
    match r {
        Ok(k) => o == Ok::<(SpecTokenKind, LexState), SpecCompileError>((k@, st)),
        Err(e) => o == Err::<(SpecTokenKind, LexState), SpecCompileError>(e@),
    }
}

fn unescape_char(c: char) -> (r: char)
    ensures
        r == unescape(c),
{
    if c == 'n' {
        '\n'
    } else if c == 'r' {
        '\r'
    } else if c == 't' {
        '\t'
    } else {
        c
    }
}

fn single_char_token(c: char) -> (r: Option<TokenKind>)
    ensures
        match r {
            Some(k) => single_char_kind(c) == Some(k@),
            None => single_char_kind(c) is None,
        },
{
    match c {
        '(' => Some(TokenKind::LParen),
        ')' => Some(TokenKind::RParen),
        '{' => Some(TokenKind::LBrace),
        '}' => Some(TokenKind::RBrace),
        '[' => Some(TokenKind::LBracket),
        ']' => Some(TokenKind::RBracket),
        ';' => Some(TokenKind::Semicolon),
        ',' => Some(TokenKind::Comma),
        ':' => Some(TokenKind::Colon),
        '?' => Some(TokenKind::Question),
        '*' => Some(TokenKind::Star),
        '%' => Some(TokenKind::Percent),
        _ => None,
    }
}

/// `p` in front of the tokens of a lexing result.
pub open spec fn prepend_tokens(p: Seq<SpecToken>, r: Result<Seq<SpecToken>, SpecCompileError>) -> Result<
    Seq<SpecToken>,
    SpecCompileError,
> {
    match r {
        Ok(ts) => Ok(p + ts),
        Err(e) => Err(e),
    }
}

/// The value of a string of decimal digits, when it fits in `i64`.
fn digits_to_i64(s: &Vec<char>) -> (r: Option<i64>)
    requires
        forall|i: int| 0 <= i < s@.len() ==> spec_is_digit(#[trigger] s@[i]),
    ensures
        r == (if decimal_value(s@) <= i64::MAX {
            Some(decimal_value(s@) as i64)
        } else {
            None
        }),
{
    let mut v: u64 = 0;
    let mut overflow = false;
    let mut i: usize = 0;
    while i < s.len()
        invariant
            i <= s.len(),
            forall|k: int| 0 <= k < s@.len() ==> spec_is_digit(#[trigger] s@[k]),
            !overflow ==> v == decimal_value(s@.take(i as int)) && v <= i64::MAX,
            overflow ==> decimal_value(s@.take(i as int)) > i64::MAX,
        decreases s.len() - i,
    {
        let d = (s[i] as u32 - 48) as u64;
        assert(s@.take(i + 1).drop_last() == s@.take(i as int));
        if !overflow {
            if v > 922337203685477580 || (v == 922337203685477580 && d > 7) {
                overflow = true;
            } else {
                v = v * 10 + d;
            }
        }
        i = i + 1;
    }
    assert(s@.take(s.len() as int) == s@);
    if overflow {
        None
    } else {
        Some(v as i64)
    }
}


/// A successful lexing ends with exactly one end-of-input token, as its last token.
pub proof fn lemma_tokens_end_with_eof(cs: Seq<char>, st: LexState)
    ensures
        lex_from(cs, st) matches Ok(ts) ==> {
            &&& ts.len() >= 1
            &&& ts.last().kind == SpecTokenKind::EOF
            &&& forall|i: int| 0 <= i < ts.len() - 1 ==> ts[i].kind != SpecTokenKind::EOF
        },
    decreases cs.len() - st.pos,
{
    if 0 <= st.pos < cs.len() {
        lemma_step_advances(cs, st);
        match lex_step(cs, st) {
            LexStep::Skip(s2) => {
                lemma_tokens_end_with_eof(cs, s2);
            },
            LexStep::Emit(k, s2) => {
                lemma_tokens_end_with_eof(cs, s2);
                lemma_emitted_not_eof(cs, st);
                if let Ok(ts) = lex_from(cs, s2) {
                    let all = seq![token_at(k, st)] + ts;
                    assert forall|i: int| 0 <= i < all.len() - 1 implies all[i].kind
                        != SpecTokenKind::EOF by {
                        if i > 0 {
                            assert(all[i] == ts[i - 1]);
                        }
                    }
                }
            },
            LexStep::Fail(_) => {},
        }
    }
}

/// Lexing from a placed state gives tokens, or an error, at line 1 or later and column 1 or
/// later.
#[verifier::spinoff_prover]
proof fn lemma_positions_from(cs: Seq<char>, st: LexState)
    requires
        placed(cs, st),
        cs.len() < usize::MAX,
    ensures
        match lex_from(cs, st) {
            Ok(ts) => forall|i: int| 0 <= i < ts.len() ==> #[trigger] ts[i].line >= 1 && ts[i].column >= 1,
            Err(e) => e.line >= 1 && e.column >= 1,
        },
    decreases cs.len() - st.pos,
{
    if st.pos < cs.len() {
        lemma_step_advances(cs, st);
        match lex_step(cs, st) {
            LexStep::Skip(s2) => {
                lemma_positions_from(cs, s2);
            },
            LexStep::Emit(k, s2) => {
                lemma_positions_from(cs, s2);
                if let Ok(ts) = lex_from(cs, s2) {
                    let all = seq![token_at(k, st)] + ts;
                    assert forall|i: int| 0 <= i < all.len() implies #[trigger] all[i].line >= 1
                        && all[i].column >= 1 by {
                        if i > 0 {
                            assert(all[i] == ts[i - 1]);
                        }
                    }
                }
            },
            LexStep::Fail(_) => {},
        }
    }
}

/// Every token of a text, and every lexing error, is placed at line 1 or later and column 1 or
/// later.
pub proof fn lemma_positions_start_at_one(cs: Seq<char>)
    requires
        cs.len() < usize::MAX,
    ensures
        match spec_tokenize(cs) {
            Ok(ts) => forall|i: int| 0 <= i < ts.len() ==> #[trigger] ts[i].line >= 1 && ts[i].column >= 1,
            Err(e) => e.line >= 1 && e.column >= 1,
        },
{
    lemma_positions_from(cs, LexState { pos: 0, line: 1, column: 1 });
}

proof fn lemma_emitted_not_eof(cs: Seq<char>, st: LexState)
    requires
        0 <= st.pos < cs.len(),
    ensures
        lex_step(cs, st) matches LexStep::Emit(k, _) ==> k != SpecTokenKind::EOF,
{
    let c = cs[st.pos];
    if !spec_is_whitespace(c) && single_char_kind(c) is None && pair_kind(c) is None && c != '/'
        && c != '#' && c != '"' && c != '\'' && c != '&' && c != '|' && !spec_is_digit(c) && (
    spec_is_alpha(c) || c == '_') {
        let s2 = ident_scan(cs, st);
        let w = cs.subrange(st.pos, s2.pos);
        assert(keyword_kind(w) != SpecTokenKind::EOF);
    }
}

// ---------------------------------------------------------------------------
// The lexer.

/// Turns source text into tokens.
pub struct Lexer {
    chars: Vec<char>,
    pos: usize,
    line: usize,
    column: usize,
}

impl Lexer {
    /// The text being read.
    pub closed spec fn input(&self) -> Seq<char> {
        self.chars@
    }

    /// Where the lexer stands in its input.
    pub closed spec fn state(&self) -> LexState {
        LexState { pos: self.pos as int, line: self.line as int, column: self.column as int }
    }

    pub closed spec fn wf(&self) -> bool {
        &&& self.pos <= self.chars.len() < usize::MAX
        &&& 1 <= self.line <= self.pos + 1
        &&& 1 <= self.column <= self.pos + 1
    }

    /// A lexer at the start of `input`: first character, line 1, column 1.
    pub fn new(input: &str) -> (r: Self)
        requires
            input@.len() < usize::MAX,
        ensures
            r.wf(),
            r.input() == input@,
            r.state() == (LexState { pos: 0, line: 1, column: 1 }),
    {
        Self { chars: chars_of(input), pos: 0, line: 1, column: 1 }
    }

    /// Consumes one character, if any is left.
    fn bump(&mut self) -> (r: Option<char>)
        requires
            old(self).wf(),
        ensures
            final(self).wf(),
            final(self).input() == old(self).input(),
            final(self).state() == bump_state(old(self).input(), old(self).state()),
            r == peek_at(old(self).input(), old(self).state()),
    {
        if self.pos < self.chars.len() {
            let ch = self.chars[self.pos];
            self.pos = self.pos + 1;
            if ch == '\n' {
                self.line = self.line + 1;
                self.column = 1;
            } else {
                self.column = self.column + 1;
            }
            Some(ch)
        } else {
            None
        }
    }

    /// The next character, if any is left.
    fn peek(&self) -> (r: Option<char>)
        ensures
            r == peek_at(self.input(), self.state()),
    {
        if self.pos < self.chars.len() {
            Some(self.chars[self.pos])
        } else {
            None
        }
    }

    fn next_is(&self, c: char) -> (r: bool)
        ensures
            r == (peek_at(self.input(), self.state()) == Some(c)),
    {
        match self.peek() {
            Some(d) => d == c,
            None => false,
        }
    }

    fn skip_line(&mut self)
        requires
            old(self).wf(),
        ensures
            final(self).wf(),
            final(self).input() == old(self).input(),
            final(self).state() == skip_line(old(self).input(), old(self).state()),
    {
        let ghost st0 = self.state();
        loop
            invariant
                self.wf(),
                self.input() == old(self).input(),
                skip_line(self.input(), self.state()) == skip_line(self.input(), st0),
            ensures
                self.wf(),
                self.input() == old(self).input(),
                self.state() == skip_line(self.input(), st0),
            decreases self.input().len() - self.state().pos,
        {
            match self.peek() {
                Some(c) => {
                    if c != '\n' {
                        self.bump();
                    } else {
                        break;
                    }
                },
                None => break,
            }
        }
    }



    /// One step of the lexer at the character `ch` under it.
    fn lex_one(&mut self, ch: char) -> (r: Result<Option<Token>, CompileError>)
        requires
            old(self).wf(),
            peek_at(old(self).input(), old(self).state()) == Some(ch),
        ensures
            final(self).wf(),
            final(self).input() == old(self).input(),
            match r {
                Ok(None) => lex_step(old(self).input(), old(self).state()) == LexStep::Skip(
                    final(self).state(),
                ),
                Ok(Some(t)) => lex_step(old(self).input(), old(self).state()) == LexStep::Emit(
                    t.kind@,
                    final(self).state(),
                ) && t.line == old(self).state().line && t.column == old(self).state().column,
                Err(e) => lex_step(old(self).input(), old(self).state()) == LexStep::Fail(e@),
            },
    {
        let line = self.line;
        let column = self.column;
        if is_whitespace(ch) {
            self.bump();
            return Ok(None);
        }
        match single_char_token(ch) {
            Some(kind) => {
                self.bump();
                return Ok(Some(Token { kind, line, column }));
            },
            None => {},
        }
        match ch {
            '+' => {
                self.bump();
                if self.next_is('+') {
                    self.bump();
                    return Ok(Some(Token { kind: TokenKind::PlusPlus, line, column }));
                }
                return Ok(Some(Token { kind: TokenKind::Plus, line, column }));
            },
            '-' => {
                self.bump();
                if self.next_is('-') {
                    self.bump();
                    return Ok(Some(Token { kind: TokenKind::MinusMinus, line, column }));
                }
                return Ok(Some(Token { kind: TokenKind::Minus, line, column }));
            },
            '=' => {
                self.bump();
                if self.next_is('=') {
                    self.bump();
                    return Ok(Some(Token { kind: TokenKind::EqualEqual, line, column }));
                }
                return Ok(Some(Token { kind: TokenKind::Equal, line, column }));
            },
            '!' => {
                self.bump();
                if self.next_is('=') {
                    self.bump();
                    return Ok(Some(Token { kind: TokenKind::BangEqual, line, column }));
                }
                return Ok(Some(Token { kind: TokenKind::Bang, line, column }));
            },
            '<' => {
                self.bump();
                if self.next_is('=') {
                    self.bump();
                    return Ok(Some(Token { kind: TokenKind::LessEqual, line, column }));
                }
                return Ok(Some(Token { kind: TokenKind::Less, line, column }));
            },
            '>' => {
                self.bump();
                if self.next_is('=') {
                    self.bump();
                    return Ok(Some(Token { kind: TokenKind::GreaterEqual, line, column }));
                }
                return Ok(Some(Token { kind: TokenKind::Greater, line, column }));
            },
            _ => {},
        }

        if ch == '/' {
            self.bump();
            if self.next_is('/') {
                self.skip_line();
                    return Ok(None);
            }
            return Ok(Some(Token { kind: TokenKind::Slash, line, column }));
        }
        if ch == '#' {
            self.skip_line();
            return Ok(None);
        }
        if ch == '"' {
            return match self.lex_string() {
                Ok(kind) => Ok(Some(Token { kind, line, column })),
                Err(e) => Err(e),
            };
        }
        if ch == '\'' {
            return match self.lex_char() {
                Ok(kind) => Ok(Some(Token { kind, line, column })),
                Err(e) => Err(e),
            };
        }
        if ch == '&' {
            self.bump();
            if self.next_is('&') {
                self.bump();
                return Ok(Some(Token { kind: TokenKind::AndAnd, line, column }));
            }
            return Err(CompileError::new(String::from_str("unexpected '&'"), line, column));
        }
        if ch == '|' {
            self.bump();
            if self.next_is('|') {
                self.bump();
                return Ok(Some(Token { kind: TokenKind::OrOr, line, column }));
            }
            return Err(CompileError::new(String::from_str("unexpected '|'"), line, column));
        }
        if is_digit(ch) {
            return match self.lex_number_or_float() {
                Ok(kind) => Ok(Some(Token { kind, line, column })),
                Err(e) => Err(e),
            };
        }
        if is_alpha(ch) || ch == '_' {
            let kind = self.lex_ident_or_keyword();
            return Ok(Some(Token { kind, line, column }));
        }
        let mut m: Vec<char> = Vec::new();
        push_str(&mut m, "unexpected character '");
        m.push(ch);
        push_str(&mut m, "'");
        assert(m@ =~= "unexpected character '"@ + seq![ch] + "'"@);
        let e = CompileError::new(string_of(&m), line, column);
        Err(e)
    }

    /// The tokens of the rest of the input, ending with an end-of-input token; or the first
    /// error.
    pub fn tokenize(self) -> (r: Result<Vec<Token>, CompileError>)
        requires
            self.wf(),
        ensures
            match r {
                Ok(ts) => lex_from(self.input(), self.state()) == Ok::<
                    Seq<SpecToken>,
                    SpecCompileError,
                >(tokens_view(ts@)),
                Err(e) => lex_from(self.input(), self.state()) == Err::<
                    Seq<SpecToken>,
                    SpecCompileError,
                >(e@),
            },
    {
        let mut lx = self;
        let mut tokens: Vec<Token> = Vec::new();
        loop
            invariant
                lx.wf(),
                lx.input() == self.input(),
                prepend_tokens(tokens_view(tokens@), lex_from(lx.input(), lx.state())) == lex_from(
                    self.input(),
                    self.state(),
                ),
            ensures
                lx.wf(),
                lx.input() == self.input(),
                lx.state().pos >= lx.input().len(),
                prepend_tokens(tokens_view(tokens@), lex_from(lx.input(), lx.state())) == lex_from(
                    self.input(),
                    self.state(),
                ),
            decreases lx.input().len() - lx.state().pos,
        {
            match lx.peek() {
                None => break,
                Some(ch) => {
                    let ghost st = lx.state();
                    let ghost before = tokens_view(tokens@);
                    proof {
                        lemma_step_advances(lx.input(), st);
                    }
                    match lx.lex_one(ch) {
                        Ok(None) => {},
                        Ok(Some(t)) => {
                            tokens.push(t);
                            assert(tokens_view(tokens@) == before + seq![token_at(t.kind@, st)]);
                            proof {
                                match lex_from(lx.input(), lx.state()) {
                                    Ok(ts) => {
                                        assert(before + (seq![token_at(t.kind@, st)] + ts) == (
                                        before + seq![token_at(t.kind@, st)]) + ts);
                                    },
                                    Err(_) => {},
                                }
                            }
                        },
                        Err(e) => {
                            return Err(e);
                        },
                    }
                },
            }
        }
        let ghost before = tokens_view(tokens@);
        let eof = Token { kind: TokenKind::EOF, line: lx.line, column: lx.column };
        tokens.push(eof);
        assert(tokens_view(tokens@) == before + seq![token_at(SpecTokenKind::EOF, lx.state())]);
        Ok(tokens)
    }

    /// Reads a number: an integer literal, or a float literal when it holds a `.`.
    fn lex_number_or_float(&mut self) -> (r: Result<TokenKind, CompileError>)
        requires
            old(self).wf(),
        ensures
            final(self).wf(),
            final(self).input() == old(self).input(),
            lexed(r, final(self).state(), spec_lex_number(old(self).input(), old(self).state())),
    {
        let ghost st0 = self.state();
        let mut s: Vec<char> = Vec::new();
        let mut has_dot = false;
        loop
            invariant
                self.wf(),
                self.input() == old(self).input(),
                st0 == old(self).state(),
                old(self).wf(),
                st0.pos <= self.state().pos,
                number_scan(self.input(), self.state(), has_dot) == number_scan(
                    self.input(),
                    st0,
                    false,
                ),
                s@ == self.input().subrange(st0.pos, self.state().pos),
                forall|i: int| 0 <= i < s@.len() && !has_dot ==> spec_is_digit(#[trigger] s@[i]),
            ensures
                self.wf(),
                self.input() == old(self).input(),
                (self.state(), has_dot) == number_scan(self.input(), st0, false),
                s@ == self.input().subrange(st0.pos, self.state().pos),
                forall|i: int| 0 <= i < s@.len() && !has_dot ==> spec_is_digit(#[trigger] s@[i]),
            decreases self.input().len() - self.state().pos,
        {
            match self.peek() {
                Some(ch) => {
                    if is_digit(ch) {
                        s.push(ch);
                        self.bump();
                    } else if ch == '.' && !has_dot {
                        has_dot = true;
                        s.push(ch);
                        self.bump();
                    } else {
                        break;
                    }
                    assert(s@ =~= self.input().subrange(st0.pos, self.state().pos));
                },
                None => break,
            }
        }
        if has_dot {
            Ok(TokenKind::FloatLit(string_of(&s)))
        } else {
            match digits_to_i64(&s) {
                Some(v) => Ok(TokenKind::Number(v)),
                None => Err(
                    CompileError::new(
                        String::from_str("invalid integer literal"),
                        self.line,
                        self.column,
                    ),
                ),
            }
        }
    }

    /// Reads a string literal; the lexer stands on its opening quote.
    fn lex_string(&mut self) -> (r: Result<TokenKind, CompileError>)
        requires
            old(self).wf(),
        ensures
            final(self).wf(),
            final(self).input() == old(self).input(),
            lexed(r, final(self).state(), spec_lex_string(old(self).input(), old(self).state())),
    {
        self.bump();
        let ghost s1 = self.state();
        let mut s: Vec<char> = Vec::new();
        loop
            invariant
                self.wf(),
                self.input() == old(self).input(),
                s1 == bump_state(old(self).input(), old(self).state()),
                string_scan(self.input(), self.state(), s@) == string_scan(
                    self.input(),
                    s1,
                    Seq::empty(),
                ),
            ensures
                self.wf(),
                self.input() == old(self).input(),
                self.state().pos >= self.input().len(),
                string_scan(self.input(), self.state(), s@) == string_scan(
                    self.input(),
                    s1,
                    Seq::empty(),
                ),
            decreases self.input().len() - self.state().pos,
        {
            match self.bump() {
                Some(ch) => {
                    if ch == '"' {
                        return Ok(TokenKind::StringLit(string_of(&s)));
                    }
                    if ch == '\\' {
                        match self.bump() {
                            Some(esc) => s.push(unescape_char(esc)),
                            None => {},
                        }
                    } else {
                        s.push(ch);
                    }
                },
                None => break,
            }
        }
        Err(CompileError::new(String::from_str("unterminated string literal"), self.line, self.column))
    }

    /// Reads a character literal; the lexer stands on its opening quote.
    fn lex_char(&mut self) -> (r: Result<TokenKind, CompileError>)
        requires
            old(self).wf(),
        ensures
            final(self).wf(),
            final(self).input() == old(self).input(),
            lexed(r, final(self).state(), spec_lex_char(old(self).input(), old(self).state())),
    {
        self.bump();
        let ch = match self.bump() {
            Some(c) => {
                if c == '\\' {
                    match self.bump() {
                        Some(e) => unescape_char(e),
                        None => {
                            return Err(
                                CompileError::new(
                                    String::from_str("unterminated char literal"),
                                    self.line,
                                    self.column,
                                ),
                            );
                        },
                    }
                } else {
                    c
                }
            },
            None => {
                return Err(
                    CompileError::new(
                        String::from_str("unterminated char literal"),
                        self.line,
                        self.column,
                    ),
                );
            },
        };
        match self.bump() {
            Some(q) => {
                if q == '\'' {
                    return Ok(TokenKind::CharLit(ch));
                }
            },
            None => {},
        }
        Err(CompileError::new(String::from_str("unterminated char literal"), self.line, self.column))
    }

    /// Reads a word: a keyword or an identifier.
    fn lex_ident_or_keyword(&mut self) -> (r: TokenKind)
        requires
            old(self).wf(),
        ensures
            final(self).wf(),
            final(self).input() == old(self).input(),
            final(self).state() == ident_scan(old(self).input(), old(self).state()),
            r@ == keyword_kind(old(self).input().subrange(old(self).state().pos, final(self).state().pos)),
    {
        let ghost st0 = self.state();
        let mut s: Vec<char> = Vec::new();
        loop
            invariant
                self.wf(),
                self.input() == old(self).input(),
                st0 == old(self).state(),
                old(self).wf(),
                st0.pos <= self.state().pos,
                ident_scan(self.input(), self.state()) == ident_scan(self.input(), st0),
                s@ == self.input().subrange(st0.pos, self.state().pos),
            ensures
                self.wf(),
                self.input() == old(self).input(),
                self.state() == ident_scan(self.input(), st0),
                s@ == self.input().subrange(st0.pos, self.state().pos),
            decreases self.input().len() - self.state().pos,
        {
            match self.peek() {
                Some(ch) => {
                    if is_alpha(ch) || is_digit(ch) || ch == '_' {
                        s.push(ch);
                        self.bump();
                        assert(s@ =~= self.input().subrange(st0.pos, self.state().pos));
                    } else {
                        break;
                    }
                },
                None => break,
            }
        }
        if chars_eq_str(&s, "public") {
            TokenKind::Public
        } else if chars_eq_str(&s, "private") {
            TokenKind::Private
        } else if chars_eq_str(&s, "protected") {
            TokenKind::Protected
        } else if chars_eq_str(&s, "funct") {
            TokenKind::Funct
        } else if chars_eq_str(&s, "var") {
            TokenKind::Var
        } else if chars_eq_str(&s, "int") {
            TokenKind::Int
        } else if chars_eq_str(&s, "bool") {
            TokenKind::Bool
        } else if chars_eq_str(&s, "void") {
            TokenKind::Void
        } else if chars_eq_str(&s, "string") {
            TokenKind::StringType
        } else if chars_eq_str(&s, "float") {
            TokenKind::Float
        } else if chars_eq_str(&s, "double") {
            TokenKind::Double
        } else if chars_eq_str(&s, "char") {
            TokenKind::CharType
        } else if chars_eq_str(&s, "if") {
            TokenKind::If
        } else if chars_eq_str(&s, "else") {
            TokenKind::Else
        } else if chars_eq_str(&s, "while") {
            TokenKind::While
        } else if chars_eq_str(&s, "do") {
            TokenKind::DoWhile
        } else if chars_eq_str(&s, "for") {
            TokenKind::For
        } else if chars_eq_str(&s, "switch") {
            TokenKind::Switch
        } else if chars_eq_str(&s, "case") {
            TokenKind::Case
        } else if chars_eq_str(&s, "default") {
            TokenKind::Default
        } else if chars_eq_str(&s, "break") {
            TokenKind::Break
        } else if chars_eq_str(&s, "continue") {
            TokenKind::Continue
        } else if chars_eq_str(&s, "return") {
            TokenKind::Return
        } else if chars_eq_str(&s, "true") {
            TokenKind::True
        } else if chars_eq_str(&s, "false") {
            TokenKind::False
        } else {
            TokenKind::Ident(string_of(&s))
        }
    }
}


// ---------------------------------------------------------------------------
// Lines and columns do not change what is read.

proof fn lemma_scans_ignore_position(cs: Seq<char>, a: LexState, b: LexState, acc: Seq<char>, has_dot: bool)
    requires
        a.pos == b.pos,
    ensures
        skip_line(cs, a).pos == skip_line(cs, b).pos,
        number_scan(cs, a, has_dot).0.pos == number_scan(cs, b, has_dot).0.pos,
        number_scan(cs, a, has_dot).1 == number_scan(cs, b, has_dot).1,
        ident_scan(cs, a).pos == ident_scan(cs, b).pos,
        string_scan(cs, a, acc).0 == string_scan(cs, b, acc).0,
        string_scan(cs, a, acc).1.pos == string_scan(cs, b, acc).1.pos,
    decreases cs.len() - a.pos,
{
    if 0 <= a.pos < cs.len() {
        let a1 = bump_state(cs, a);
        let b1 = bump_state(cs, b);
        let c = cs[a.pos];
        lemma_scans_ignore_position(cs, a1, b1, acc.push(c), has_dot || c == '.');
        lemma_scans_ignore_position(cs, a1, b1, acc, has_dot);
        if c == '\\' && a1.pos < cs.len() {
            lemma_scans_ignore_position(
                cs,
                bump_state(cs, a1),
                bump_state(cs, b1),
                acc.push(unescape(cs[a1.pos])),
                has_dot,
            );
        }
    }
}

/// Two lexing steps that read the same and end at the same place; failures may differ in
/// position only.
pub open spec fn same_step(x: LexStep, y: LexStep) -> bool {
    match (x, y) {
        (LexStep::Skip(a), LexStep::Skip(b)) => a.pos == b.pos,
        (LexStep::Emit(k, a), LexStep::Emit(l, b)) => k == l && a.pos == b.pos,
        (LexStep::Fail(e), LexStep::Fail(f)) => e.message == f.message && e.code == f.code,
        _ => false,
    }
}

proof fn lemma_step_ignores_position(cs: Seq<char>, a: LexState, b: LexState)
    requires
        a.pos == b.pos,
        0 <= a.pos < cs.len(),
    ensures
        same_step(lex_step(cs, a), lex_step(cs, b)),
{
    let a1 = bump_state(cs, a);
    let b1 = bump_state(cs, b);
    lemma_scans_ignore_position(cs, a, b, Seq::empty(), false);
    lemma_scans_ignore_position(cs, a1, b1, Seq::empty(), false);
    if a1.pos < cs.len() {
        lemma_scans_ignore_position(cs, bump_state(cs, a1), bump_state(cs, b1), Seq::empty(), false);
    }
}

/// The kinds of a sequence of tokens.
pub open spec fn token_kinds(ts: Seq<SpecToken>) -> Seq<SpecTokenKind> {
    ts.map_values(|t: SpecToken| t.kind)
}

/// Lexing reads the same whatever line and column it starts at: the same token kinds, or an
/// error with the same message; only positions may differ.
pub proof fn lemma_lexing_ignores_position(cs: Seq<char>, a: LexState, b: LexState)
    requires
        a.pos == b.pos,
    ensures
        match (lex_from(cs, a), lex_from(cs, b)) {
            (Ok(ts), Ok(us)) => token_kinds(ts) == token_kinds(us),
            (Err(e), Err(f)) => e.message == f.message && e.code == f.code,
            _ => false,
        },
    decreases cs.len() - a.pos,
{
    if 0 <= a.pos < cs.len() {
        lemma_step_ignores_position(cs, a, b);
        lemma_step_advances(cs, a);
        match (lex_step(cs, a), lex_step(cs, b)) {
            (LexStep::Skip(x), LexStep::Skip(y)) => {
                lemma_lexing_ignores_position(cs, x, y);
            },
            (LexStep::Emit(k, x), LexStep::Emit(l, y)) => {
                lemma_lexing_ignores_position(cs, x, y);
                match (lex_from(cs, x), lex_from(cs, y)) {
                    (Ok(ts), Ok(us)) => {
                        assert(token_kinds(seq![token_at(k, a)] + ts) =~= seq![k] + token_kinds(ts));
                        assert(token_kinds(seq![token_at(l, b)] + us) =~= seq![l] + token_kinds(us));
                    },
                    _ => {},
                }
            },
            _ => {},
        }
    } else {
        assert(token_kinds(seq![token_at(SpecTokenKind::EOF, a)]) =~= token_kinds(
            seq![token_at(SpecTokenKind::EOF, b)],
        ));
    }
}


// ---------------------------------------------------------------------------
// Reading the same characters gives the same tokens.

/// The places `pa + k` of `cs` and `pb + k` of `ds` hold the same character, or are both past
/// the end.
pub open spec fn agrees_at(cs: Seq<char>, pa: int, ds: Seq<char>, pb: int, k: int) -> bool {
    &&& (pa + k < cs.len()) == (pb + k < ds.len())
    &&& pa + k < cs.len() ==> cs[pa + k] == ds[pb + k]
}

/// The place `pa + k` of `cs` holds a space and the place `pb + k` of `ds` some whitespace.
pub open spec fn loose_at(cs: Seq<char>, pa: int, ds: Seq<char>, pb: int, k: int) -> bool {
    &&& pa + k < cs.len()
    &&& pb + k < ds.len()
    &&& cs[pa + k] == ' '
    &&& spec_is_whitespace(ds[pb + k])
}

/// From `pa` in `cs` and `pb` in `ds`, the next `m` places agree, and the one after them
/// agrees too or holds a space in `cs` and whitespace in `ds`.
pub open spec fn same_ahead(cs: Seq<char>, pa: int, ds: Seq<char>, pb: int, m: int) -> bool {
    &&& 0 <= pa
    &&& 0 <= pb
    &&& forall|k: int| 0 <= k < m ==> #[trigger] agrees_at(cs, pa, ds, pb, k)
    &&& agrees_at(cs, pa, ds, pb, m) || loose_at(cs, pa, ds, pb, m)
}

proof fn lemma_same_ahead_next(cs: Seq<char>, pa: int, ds: Seq<char>, pb: int, m: int, d: int)
    requires
        same_ahead(cs, pa, ds, pb, m),
        0 <= d,
    ensures
        same_ahead(cs, pa + d, ds, pb + d, m - d),
{
    assert forall|k: int| 0 <= k < m - d implies #[trigger] agrees_at(cs, pa + d, ds, pb + d, k) by {
        assert(agrees_at(cs, pa, ds, pb, d + k));
    }
    assert(pa + d + (m - d) == pa + m && pb + d + (m - d) == pb + m);
}

proof fn lemma_same_ahead_text(cs: Seq<char>, pa: int, ds: Seq<char>, pb: int, m: int, n: int)
    requires
        same_ahead(cs, pa, ds, pb, m),
        0 <= n <= m,
        pa + n <= cs.len(),
        pb <= ds.len(),
    ensures
        cs.subrange(pa, pa + n) == ds.subrange(pb, pb + n),
{
    if n > 0 {
        assert(agrees_at(cs, pa, ds, pb, n - 1));
    }
    assert forall|k: int| 0 <= k < n implies #[trigger] cs.subrange(pa, pa + n)[k] == ds.subrange(
        pb,
        pb + n,
    )[k] by {
        assert(agrees_at(cs, pa, ds, pb, k));
    }
    assert(cs.subrange(pa, pa + n) =~= ds.subrange(pb, pb + n));
}

proof fn lemma_scans_same_ahead(
    cs: Seq<char>,
    a: LexState,
    ds: Seq<char>,
    b: LexState,
    m: int,
    has_dot: bool,
)
    requires
        same_ahead(cs, a.pos, ds, b.pos, m),
        a.pos <= cs.len(),
        0 <= m,
    ensures
        skip_line(cs, a).pos - a.pos <= m ==> skip_line(ds, b).pos - b.pos == skip_line(cs, a).pos
            - a.pos,
        number_scan(cs, a, has_dot).0.pos - a.pos <= m ==> number_scan(ds, b, has_dot).0.pos - b.pos
            == number_scan(cs, a, has_dot).0.pos - a.pos && number_scan(ds, b, has_dot).1
            == number_scan(cs, a, has_dot).1,
        ident_scan(cs, a).pos - a.pos <= m ==> ident_scan(ds, b).pos - b.pos == ident_scan(cs, a).pos
            - a.pos,
    decreases cs.len() - a.pos,
{
    lemma_skip_line(cs, a);
    if m > 0 || !loose_at(cs, a.pos, ds, b.pos, 0) {
        assert(agrees_at(cs, a.pos, ds, b.pos, 0));
    }
    if 0 <= a.pos < cs.len() {
        let a1 = bump_state(cs, a);
        let b1 = bump_state(ds, b);
        let c = cs[a.pos];
        lemma_skip_line(cs, a1);
        lemma_number_scan(cs, a1, has_dot || c == '.');
        lemma_number_scan(cs, a1, has_dot);
        lemma_ident_scan(cs, a1);
        if m >= 1 {
            assert(agrees_at(cs, a.pos, ds, b.pos, 0));
            lemma_same_ahead_next(cs, a.pos, ds, b.pos, m, 1);
            lemma_scans_same_ahead(cs, a1, ds, b1, m - 1, has_dot || c == '.');
            lemma_scans_same_ahead(cs, a1, ds, b1, m - 1, has_dot);
        } else if loose_at(cs, a.pos, ds, b.pos, 0) {
            lemma_whitespace_is_none_of(ds[b.pos]);
        }
    }
}

/// No whitespace character starts or continues a word, a number or a comment's end.
proof fn lemma_whitespace_is_none_of(c: char)
    requires
        spec_is_whitespace(c),
    ensures
        !spec_is_digit(c),
        !spec_is_alpha(c),
        !spec_is_ident_char(c),
        c != '.' && c != '_' && c != '=' && c != '/' && c != '&' && c != '|' && c != '"' && c
            != '\\' && c != '\'' && c != '-' && c != '+' && c != '<' && c != '>' && c != '!',
{
}

proof fn lemma_string_scan_same_ahead(
    cs: Seq<char>,
    a: LexState,
    ds: Seq<char>,
    b: LexState,
    m: int,
    acc: Seq<char>,
)
    requires
        same_ahead(cs, a.pos, ds, b.pos, m),
        a.pos <= cs.len(),
        0 <= m,
        string_scan(cs, a, acc).1.pos - a.pos <= m,
    ensures
        string_scan(ds, b, acc).0 == string_scan(cs, a, acc).0,
        string_scan(ds, b, acc).1.pos - b.pos == string_scan(cs, a, acc).1.pos - a.pos,
    decreases cs.len() - a.pos,
{
    if 0 <= a.pos < cs.len() {
        let a1 = bump_state(cs, a);
        let b1 = bump_state(ds, b);
        let c = cs[a.pos];
        if m == 0 {
            lemma_string_scan(cs, a1, acc.push(c));
            if a1.pos < cs.len() {
                lemma_string_scan(cs, bump_state(cs, a1), acc.push(unescape(cs[a1.pos])));
            }
            assert(false);
        }
        assert(agrees_at(cs, a.pos, ds, b.pos, 0));
        assert(ds[b.pos] == c);
        assert(a1.pos == a.pos + 1 && b1.pos == b.pos + 1);
        if c == '"' {
        } else if c == '\\' {
            if a1.pos < cs.len() {
                let a2 = bump_state(cs, a1);
                let b2 = bump_state(ds, b1);
                let acc2 = acc.push(unescape(cs[a1.pos]));
                assert(a2.pos == a.pos + 2);
                lemma_string_scan(cs, a2, acc2);
                assert(string_scan(cs, a, acc) == string_scan(cs, a2, acc2));
                assert(m >= 2);
                assert(agrees_at(cs, a.pos, ds, b.pos, 1));
                assert(ds[b1.pos] == cs[a1.pos]);
                assert(b2.pos == b.pos + 2);
                assert(string_scan(ds, b, acc) == string_scan(ds, b2, acc2));
                lemma_same_ahead_next(cs, a.pos, ds, b.pos, m, 2);
                lemma_string_scan_same_ahead(cs, a2, ds, b2, m - 2, acc2);
            } else {
                assert(m >= 1);
                assert(agrees_at(cs, a.pos, ds, b.pos, 1));
                assert(b1.pos >= ds.len());
            }
        } else {
            let acc1 = acc.push(c);
            lemma_string_scan(cs, a1, acc1);
            assert(string_scan(cs, a, acc) == string_scan(cs, a1, acc1));
            assert(string_scan(ds, b, acc) == string_scan(ds, b1, acc1));
            lemma_same_ahead_next(cs, a.pos, ds, b.pos, m, 1);
            lemma_string_scan_same_ahead(cs, a1, ds, b1, m - 1, acc1);
        }
    } else {
        assert(agrees_at(cs, a.pos, ds, b.pos, 0));
        assert(b.pos >= ds.len());
    }
}

/// Two lexing steps at places that read the same: the same skip or token, ending the same
/// distance further, or a failure with the same message.
pub open spec fn same_step_from(x: LexStep, pa: int, y: LexStep, pb: int) -> bool {
    match (x, y) {
        (LexStep::Skip(a), LexStep::Skip(b)) => a.pos - pa == b.pos - pb,
        (LexStep::Emit(k, a), LexStep::Emit(l, b)) => k == l && a.pos - pa == b.pos - pb,
        (LexStep::Fail(e), LexStep::Fail(f)) => e.message == f.message && e.code == f.code,
        _ => false,
    }
}

/// How far a step reads: to the place after it, or, for a failure, to the end of the input.
pub open spec fn step_reach(cs: Seq<char>, a: LexState) -> int {
    match lex_step(cs, a) {
        LexStep::Skip(s) => s.pos - a.pos,
        LexStep::Emit(_, s) => s.pos - a.pos,
        LexStep::Fail(_) => cs.len() - a.pos,
    }
}

proof fn lemma_step_same_ahead(cs: Seq<char>, a: LexState, ds: Seq<char>, b: LexState, m: int)
    requires
        0 <= a.pos < cs.len(),
        same_ahead(cs, a.pos, ds, b.pos, m),
        step_reach(cs, a) <= m,
        0 <= m,
    ensures
        same_step_from(lex_step(cs, a), a.pos, lex_step(ds, b), b.pos),
{
    lemma_step_advances(cs, a);
    assert(m >= 1);
    assert(agrees_at(cs, a.pos, ds, b.pos, 0));
    let a1 = bump_state(cs, a);
    let b1 = bump_state(ds, b);
    lemma_skip_line(cs, a1);
    lemma_skip_line(cs, a);
    lemma_number_scan(cs, a, false);
    lemma_ident_scan(cs, a);
    lemma_string_scan(cs, a1, Seq::empty());
    lemma_scans_same_ahead(cs, a, ds, b, m, false);
    lemma_same_ahead_next(cs, a.pos, ds, b.pos, m, 1);
    lemma_scans_same_ahead(cs, a1, ds, b1, m - 1, false);
    if string_scan(cs, a1, Seq::empty()).1.pos - a1.pos <= m - 1 {
        lemma_string_scan_same_ahead(cs, a1, ds, b1, m - 1, Seq::empty());
    }
    if loose_at(cs, a.pos, ds, b.pos, m) {
        lemma_whitespace_is_none_of(ds[b.pos + m]);
    }
    if m >= 2 {
        assert(agrees_at(cs, a.pos, ds, b.pos, 1));
    }
    if m >= 3 {
        assert(agrees_at(cs, a.pos, ds, b.pos, 2));
    }
    if m >= 4 {
        assert(agrees_at(cs, a.pos, ds, b.pos, 3));
    }
    let e1 = number_scan(cs, a, false).0.pos;
    if e1 - a.pos <= m && e1 <= cs.len() {
        lemma_same_ahead_text(cs, a.pos, ds, b.pos, m, e1 - a.pos);
    }
    let e2 = ident_scan(cs, a).pos;
    if e2 - a.pos <= m && e2 <= cs.len() {
        lemma_same_ahead_text(cs, a.pos, ds, b.pos, m, e2 - a.pos);
    }
}

/// Lexing two inputs whose rests are the same character for character gives the same token
/// kinds, or an error with the same message.
proof fn lemma_lexing_same_rest(cs: Seq<char>, a: LexState, ds: Seq<char>, b: LexState)
    requires
        0 <= a.pos <= cs.len(),
        0 <= b.pos <= ds.len(),
        cs.skip(a.pos) == ds.skip(b.pos),
    ensures
        match (lex_from(cs, a), lex_from(ds, b)) {
            (Ok(ts), Ok(us)) => token_kinds(ts) == token_kinds(us),
            (Err(e), Err(f)) => e.message == f.message && e.code == f.code,
            _ => false,
        },
    decreases cs.len() - a.pos,
{
    let m = cs.len() - a.pos;
    assert(cs.skip(a.pos).len() == m);
    assert(ds.skip(b.pos).len() == ds.len() - b.pos);
    assert(ds.len() - b.pos == m);
    if a.pos < cs.len() {
        assert forall|k: int| 0 <= k <= m implies #[trigger] agrees_at(cs, a.pos, ds, b.pos, k) by {
            if a.pos + k < cs.len() {
                assert(cs.skip(a.pos)[k] == ds.skip(b.pos)[k]);
                assert(cs.skip(a.pos)[k] == cs[a.pos + k]);
                assert(ds.skip(b.pos)[k] == ds[b.pos + k]);
            }
        }
        lemma_step_advances(cs, a);
        lemma_step_same_ahead(cs, a, ds, b, m);
        lemma_step_advances(ds, b);
        match (lex_step(cs, a), lex_step(ds, b)) {
            (LexStep::Skip(x), LexStep::Skip(y)) => {
                assert(cs.skip(x.pos) =~= ds.skip(y.pos)) by {
                    assert(cs.skip(x.pos).len() == ds.skip(y.pos).len());
                    assert forall|j: int| 0 <= j < cs.skip(x.pos).len() implies cs.skip(x.pos)[j]
                        == ds.skip(y.pos)[j] by {
                        assert(cs.skip(a.pos)[x.pos - a.pos + j] == ds.skip(b.pos)[x.pos - a.pos + j]);
                        assert(cs.skip(a.pos)[x.pos - a.pos + j] == cs[x.pos + j]);
                        assert(ds.skip(b.pos)[x.pos - a.pos + j] == ds[y.pos + j]);
                    }
                }
                lemma_lexing_same_rest(cs, x, ds, y);
            },
            (LexStep::Emit(k, x), LexStep::Emit(l, y)) => {
                assert(cs.skip(x.pos) =~= ds.skip(y.pos)) by {
                    assert(cs.skip(x.pos).len() == ds.skip(y.pos).len());
                    assert forall|j: int| 0 <= j < cs.skip(x.pos).len() implies cs.skip(x.pos)[j]
                        == ds.skip(y.pos)[j] by {
                        assert(cs.skip(a.pos)[x.pos - a.pos + j] == ds.skip(b.pos)[x.pos - a.pos + j]);
                        assert(cs.skip(a.pos)[x.pos - a.pos + j] == cs[x.pos + j]);
                        assert(ds.skip(b.pos)[x.pos - a.pos + j] == ds[y.pos + j]);
                    }
                }
                lemma_lexing_same_rest(cs, x, ds, y);
                match (lex_from(cs, x), lex_from(ds, y)) {
                    (Ok(ts), Ok(us)) => {
                        assert(token_kinds(seq![token_at(k, a)] + ts) =~= seq![k] + token_kinds(ts));
                        assert(token_kinds(seq![token_at(l, b)] + us) =~= seq![l] + token_kinds(us));
                    },
                    _ => {},
                }
            },
            _ => {},
        }
    } else {
        assert(token_kinds(seq![token_at(SpecTokenKind::EOF, a)]) =~= token_kinds(
            seq![token_at(SpecTokenKind::EOF, b)],
        ));
    }
}


/// Lexing `cs` from `st` starts a step at the place `i`: the place lies between tokens,
/// outside every literal and comment, and nothing before it fails.
pub open spec fn lexes_through(cs: Seq<char>, st: LexState, i: int) -> bool
    decreases i - st.pos,
{
    if st.pos == i {
        true
    } else if 0 <= st.pos < i && st.pos < cs.len() {
        match lex_step(cs, st) {
            LexStep::Skip(s) => st.pos < s.pos <= i && lexes_through(cs, s, i),
            LexStep::Emit(_, s) => st.pos < s.pos <= i && lexes_through(cs, s, i),
            LexStep::Fail(_) => false,
        }
    } else {
        false
    }
}

proof fn lemma_skip_run(ds: Seq<char>, y: LexState, end: int) -> (z: LexState)
    requires
        0 <= y.pos <= end <= ds.len(),
        forall|j: int| y.pos <= j < end ==> spec_is_whitespace(#[trigger] ds[j]),
    ensures
        z.pos == end,
        lex_from(ds, y) == lex_from(ds, z),
    decreases end - y.pos,
{
    if y.pos == end {
        y
    } else {
        assert(spec_is_whitespace(ds[y.pos]));
        lemma_skip_run(ds, bump_state(ds, y), end)
    }
}

proof fn lemma_insert_whitespace_from(
    cs: Seq<char>,
    a: LexState,
    ds: Seq<char>,
    b: LexState,
    i: int,
    w: Seq<char>,
)
    requires
        lexes_through(cs, a, i),
        a.pos == b.pos,
        0 <= a.pos,
        0 <= i < cs.len(),
        spec_is_whitespace(cs[i]),
        forall|j: int| 0 <= j < w.len() ==> spec_is_whitespace(#[trigger] w[j]),
        ds == cs.take(i + 1) + w + cs.skip(i + 1),
    ensures
        match (lex_from(cs, a), lex_from(ds, b)) {
            (Ok(ts), Ok(us)) => token_kinds(ts) == token_kinds(us),
            (Err(e), Err(f)) => e.message == f.message && e.code == f.code,
            _ => false,
        },
    decreases cs.len() - a.pos,
{
    assert(ds.len() == cs.len() + w.len());
    assert forall|j: int| 0 <= j <= i implies #[trigger] ds[j] == cs[j] by {
        assert(ds[j] == cs.take(i + 1)[j]);
    }
    if a.pos == i {
        let x = bump_state(cs, a);
        let y = bump_state(ds, b);
        assert(ds[i] == cs[i]);
        assert(lex_step(cs, a) == LexStep::Skip(x));
        assert(lex_step(ds, b) == LexStep::Skip(y));
        let end = i + 1 + w.len();
        assert forall|j: int| y.pos <= j < end implies spec_is_whitespace(#[trigger] ds[j]) by {
            assert(ds[j] == w[j - i - 1]);
        }
        let z = lemma_skip_run(ds, y, end);
        assert(cs.skip(x.pos) =~= ds.skip(z.pos)) by {
            assert forall|j: int| 0 <= j < cs.skip(x.pos).len() implies cs.skip(x.pos)[j]
                == ds.skip(z.pos)[j] by {
                assert(ds[end + j] == cs.skip(i + 1)[j]);
            }
        }
        lemma_lexing_same_rest(cs, x, ds, z);
    } else {
        let m = i - a.pos;
        lemma_step_advances(cs, a);
        lemma_step_advances(ds, b);
        match lex_step(cs, a) {
            LexStep::Skip(x) => {
                assert(x.pos <= i);
            },
            LexStep::Emit(_, x) => {
                assert(x.pos <= i);
            },
            LexStep::Fail(_) => {},
        }
        assert forall|k: int| 0 <= k <= m implies #[trigger] agrees_at(cs, a.pos, ds, b.pos, k) by {
            assert(ds[a.pos + k] == cs[a.pos + k]);
        }
        lemma_step_same_ahead(cs, a, ds, b, m);
        match (lex_step(cs, a), lex_step(ds, b)) {
            (LexStep::Skip(x), LexStep::Skip(y)) => {
                lemma_insert_whitespace_from(cs, x, ds, y, i, w);
            },
            (LexStep::Emit(k, x), LexStep::Emit(l, y)) => {
                lemma_insert_whitespace_from(cs, x, ds, y, i, w);
                match (lex_from(cs, x), lex_from(ds, y)) {
                    (Ok(ts), Ok(us)) => {
                        assert(token_kinds(seq![token_at(k, a)] + ts) =~= seq![k] + token_kinds(ts));
                        assert(token_kinds(seq![token_at(l, b)] + us) =~= seq![l] + token_kinds(us));
                    },
                    _ => {},
                }
            },
            _ => {},
        }
    }
}

/// Whitespace between tokens changes only positions: adding whitespace right after a
/// whitespace character that the lexer reaches between tokens gives the same token kinds from
/// `Lexer::tokenize`, or an error with the same message.
pub proof fn lemma_whitespace_between_tokens(cs: Seq<char>, i: int, w: Seq<char>)
    requires
        0 <= i < cs.len(),
        spec_is_whitespace(cs[i]),
        lexes_through(cs, LexState { pos: 0, line: 1, column: 1 }, i),
        forall|j: int| 0 <= j < w.len() ==> spec_is_whitespace(#[trigger] w[j]),
    ensures
        match (spec_tokenize(cs), spec_tokenize(cs.take(i + 1) + w + cs.skip(i + 1))) {
            (Ok(ts), Ok(us)) => token_kinds(ts) == token_kinds(us),
            (Err(e), Err(f)) => e.message == f.message && e.code == f.code,
            _ => false,
        },
{
    let st = LexState { pos: 0, line: 1, column: 1 };
    lemma_insert_whitespace_from(cs, st, cs.take(i + 1) + w + cs.skip(i + 1), st, i, w);
}


proof fn lemma_replace_space_from(
    cs: Seq<char>,
    a: LexState,
    ds: Seq<char>,
    b: LexState,
    i: int,
    w: Seq<char>,
)
    requires
        lexes_through(cs, a, i),
        a.pos == b.pos,
        0 <= a.pos,
        0 <= i < cs.len(),
        cs[i] == ' ',
        w.len() >= 1,
        forall|j: int| 0 <= j < w.len() ==> spec_is_whitespace(#[trigger] w[j]),
        ds == cs.take(i) + w + cs.skip(i + 1),
    ensures
        match (lex_from(cs, a), lex_from(ds, b)) {
            (Ok(ts), Ok(us)) => token_kinds(ts) == token_kinds(us),
            (Err(e), Err(f)) => e.message == f.message && e.code == f.code,
            _ => false,
        },
    decreases cs.len() - a.pos,
{
    assert(ds.len() == cs.len() - 1 + w.len());
    assert forall|j: int| 0 <= j < i implies #[trigger] ds[j] == cs[j] by {
        assert(ds[j] == cs.take(i)[j]);
    }
    assert(ds[i] == w[0]);
    if a.pos == i {
        let x = bump_state(cs, a);
        assert(lex_step(cs, a) == LexStep::Skip(x));
        let end = i + w.len();
        assert forall|j: int| b.pos <= j < end implies spec_is_whitespace(#[trigger] ds[j]) by {
            assert(ds[j] == w[j - i]);
        }
        let z = lemma_skip_run(ds, b, end);
        assert(cs.skip(x.pos) =~= ds.skip(z.pos)) by {
            assert forall|j: int| 0 <= j < cs.skip(x.pos).len() implies cs.skip(x.pos)[j]
                == ds.skip(z.pos)[j] by {
                assert(ds[end + j] == cs.skip(i + 1)[j]);
            }
        }
        lemma_lexing_same_rest(cs, x, ds, z);
    } else {
        let m = i - a.pos;
        lemma_step_advances(cs, a);
        lemma_step_advances(ds, b);
        assert forall|k: int| 0 <= k < m implies #[trigger] agrees_at(cs, a.pos, ds, b.pos, k) by {
            assert(ds[a.pos + k] == cs[a.pos + k]);
        }
        assert(loose_at(cs, a.pos, ds, b.pos, m));
        lemma_step_same_ahead(cs, a, ds, b, m);
        match (lex_step(cs, a), lex_step(ds, b)) {
            (LexStep::Skip(x), LexStep::Skip(y)) => {
                lemma_replace_space_from(cs, x, ds, y, i, w);
            },
            (LexStep::Emit(k, x), LexStep::Emit(l, y)) => {
                lemma_replace_space_from(cs, x, ds, y, i, w);
                match (lex_from(cs, x), lex_from(ds, y)) {
                    (Ok(ts), Ok(us)) => {
                        assert(token_kinds(seq![token_at(k, a)] + ts) =~= seq![k] + token_kinds(ts));
                        assert(token_kinds(seq![token_at(l, b)] + us) =~= seq![l] + token_kinds(us));
                    },
                    _ => {},
                }
            },
            _ => {},
        }
    }
}

/// A space between tokens may be replaced by any non-empty run of whitespace: only positions
/// change, and the tokens of `Lexer::tokenize` keep their kinds, or the error keeps its message.
pub proof fn lemma_space_between_tokens(cs: Seq<char>, i: int, w: Seq<char>)
    requires
        0 <= i < cs.len(),
        cs[i] == ' ',
        lexes_through(cs, LexState { pos: 0, line: 1, column: 1 }, i),
        w.len() >= 1,
        forall|j: int| 0 <= j < w.len() ==> spec_is_whitespace(#[trigger] w[j]),
    ensures
        match (spec_tokenize(cs), spec_tokenize(cs.take(i) + w + cs.skip(i + 1))) {
            (Ok(ts), Ok(us)) => token_kinds(ts) == token_kinds(us),
            (Err(e), Err(f)) => e.message == f.message && e.code == f.code,
            _ => false,
        },
{
    let st = LexState { pos: 0, line: 1, column: 1 };
    lemma_replace_space_from(cs, st, cs.take(i) + w + cs.skip(i + 1), st, i, w);
}


/// The characters of Unicode's `White_Space` property (std's `char::is_whitespace`): the ASCII
/// ones (tab, line feed, vertical tab, form feed, carriage return, space) and the others.
pub open spec fn unicode_white_space(c: char) -> bool {
    ||| c == '\t'
    ||| c == '\n'
    ||| c == '\u{0b}'
    ||| c == '\u{0c}'
    ||| c == '\r'
    ||| c == ' '
    ||| c == '\u{85}'
    ||| c == '\u{a0}'
    ||| c == '\u{1680}'
    ||| ('\u{2000}' <= c && c <= '\u{200a}')
    ||| c == '\u{2028}'
    ||| c == '\u{2029}'
    ||| c == '\u{202f}'
    ||| c == '\u{205f}'
    ||| c == '\u{3000}'
}

/// Wherever a token could start, the lexer skips a whitespace character on its own: a carriage
/// return, a tab or a space as much as a line feed. A line feed moves on to column 1 of the next
/// line; any other whitespace moves one column on.
pub proof fn lemma_whitespace_is_skipped(cs: Seq<char>, st: LexState)
    requires
        0 <= st.pos < cs.len(),
        unicode_white_space(cs[st.pos]),
    ensures
        lex_step(cs, st) == LexStep::Skip(
            if cs[st.pos] == '\n' {
                LexState { pos: st.pos + 1, line: st.line + 1, column: 1 }
            } else {
                LexState { pos: st.pos + 1, line: st.line, column: st.column + 1 }
            },
        ),
{
}

/// A space between tokens may become a Windows line end (`\r\n`): the tokens keep their kinds,
/// or the error keeps its message.
pub proof fn lemma_crlf_between_tokens(cs: Seq<char>, i: int)
    requires
        0 <= i < cs.len(),
        cs[i] == ' ',
        lexes_through(cs, LexState { pos: 0, line: 1, column: 1 }, i),
    ensures
        match (spec_tokenize(cs), spec_tokenize(cs.take(i) + seq!['\r', '\n'] + cs.skip(i + 1))) {
            (Ok(ts), Ok(us)) => token_kinds(ts) == token_kinds(us),
            (Err(e), Err(f)) => e.message == f.message && e.code == f.code,
            _ => false,
        },
{
    let w = seq!['\r', '\n'];
    assert forall|j: int| 0 <= j < w.len() implies spec_is_whitespace(#[trigger] w[j]) by {
        lemma_whitespace_is_skipped(seq![w[j]], LexState { pos: 0, line: 1, column: 1 });
    }
    lemma_space_between_tokens(cs, i, w);
}

} // verus!
