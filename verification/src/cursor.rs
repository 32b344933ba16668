use vstd::prelude::*;
use crate::ast::{SpecToken, SpecTokenKind};

verus! {

// Reading a sequence of tokens: positions, comments, and what lies past the end.

/// The first position at or after `p` that does not hold a comment token.
pub open spec fn skip_comments(ts: Seq<SpecToken>, p: int) -> int
    decreases ts.len() - p,
{
    if 0 <= p < ts.len() && ts[p].kind == SpecTokenKind::Comment {
        skip_comments(ts, p + 1)
    } else {
        p
    }
}

pub broadcast proof fn lemma_skip_comments_bounds(ts: Seq<SpecToken>, p: int)
    requires
        0 <= p <= ts.len(),
    ensures
        p <= #[trigger] skip_comments(ts, p) <= ts.len(),
    decreases ts.len() - p,
{
    if 0 <= p < ts.len() && ts[p].kind == SpecTokenKind::Comment {
        lemma_skip_comments_bounds(ts, p + 1);
    }
}

/// The token at `q`; past the end, the last token.
pub open spec fn tok_at(ts: Seq<SpecToken>, q: int) -> SpecToken {
    if 0 <= q < ts.len() {
        ts[q]
    } else {
        ts.last()
    }
}

/// The kind of the token at `q`; past the end, end of input.
pub open spec fn kind_at(ts: Seq<SpecToken>, q: int) -> SpecTokenKind {
    if 0 <= q < ts.len() {
        ts[q].kind
    } else {
        SpecTokenKind::EOF
    }
}

/// The kind of the token at `p` itself, comments included.
pub open spec fn peek_kind(ts: Seq<SpecToken>, p: int) -> Option<SpecTokenKind> {
    if 0 <= p < ts.len() {
        Some(ts[p].kind)
    } else {
        None
    }
}

pub open spec fn check(ts: Seq<SpecToken>, p: int, k: SpecTokenKind) -> bool {
    peek_kind(ts, p) == Some(k)
}

/// One position further, but never past the end.
pub open spec fn adv(ts: Seq<SpecToken>, p: int) -> int {
    if p < ts.len() {
        p + 1
    } else {
        p
    }
}

/// Whether the position moved forward from `p` to `q` within the tokens.
pub open spec fn moved(ts: Seq<SpecToken>, p: int, q: int) -> bool {
    p < q <= ts.len()
}

/// Whether a token sequence can be given to the parser: it is not empty and ends with an
/// end-of-input token.
pub open spec fn parsable(ts: Seq<SpecToken>) -> bool {
    ts.len() > 0 && ts.last().kind == SpecTokenKind::EOF
}

/// In a sequence that ends with an end-of-input token, the token seen at a position has the
/// kind seen there.
pub broadcast proof fn lemma_tok_kind(ts: Seq<SpecToken>, q: int)
    requires
        parsable(ts),
        0 <= q,
    ensures
        #[trigger] tok_at(ts, q).kind == kind_at(ts, q),
{
}

} // verus!
