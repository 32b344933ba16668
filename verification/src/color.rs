use vstd::prelude::*;
use crate::text::{chars_of, string_of};

verus! {

/// `s` with every occurrence of `pat` replaced by `rep`, scanning from the left and not
/// letting matches overlap (std's `str::replace`, for a pattern that is not empty).
pub open spec fn spec_replace(s: Seq<char>, pat: Seq<char>, rep: Seq<char>) -> Seq<char>
    decreases s.len(),
{
    if s.len() == 0 {
        Seq::empty()
    } else if 0 < pat.len() <= s.len() && s.take(pat.len() as int) == pat {
        rep + spec_replace(s.skip(pat.len() as int), pat, rep)
    } else {
        seq![s[0]] + spec_replace(s.skip(1), pat, rep)
    }
}

fn matches_at(s: &Vec<char>, i: usize, pat: &Vec<char>) -> (r: bool)
    requires
        i <= s.len(),
    ensures
        r == (pat.len() <= s.len() - i && s@.skip(i as int).take(pat.len() as int) == pat@),
{
    if pat.len() > s.len() - i {
        return false;
    }
    let mut j: usize = 0;
    while j < pat.len()
        invariant
            i <= s.len(),
            pat.len() <= s.len() - i,
            j <= pat.len(),
            forall|k: int| 0 <= k < j ==> s@[i + k] == pat@[k],
        decreases pat.len() - j,
    {
        if s[i + j] != pat[j] {
            assert(s@.skip(i as int).take(pat.len() as int)[j as int] != pat@[j as int]);
            return false;
        }
        j = j + 1;
    }
    assert(s@.skip(i as int).take(pat.len() as int) =~= pat@);
    true
}

/// Every occurrence of `pat` in `s` replaced by `rep`.
pub fn replace_chars(s: &Vec<char>, pat: &Vec<char>, rep: &Vec<char>) -> (r: Vec<char>)
    requires
        pat.len() > 0,
    ensures
        r@ == spec_replace(s@, pat@, rep@),
{
    let mut out: Vec<char> = Vec::new();
    let mut i: usize = 0;
    assert(s@.skip(0) == s@);
    while i < s.len()
        invariant
            pat.len() > 0,
            i <= s.len(),
            out@ + spec_replace(s@.skip(i as int), pat@, rep@) == spec_replace(s@, pat@, rep@),
        decreases s.len() - i,
    {
        let ghost rest = s@.skip(i as int);
        if matches_at(s, i, pat) {
            let mut k: usize = 0;
            let ghost before = out@;
            while k < rep.len()
                invariant
                    k <= rep.len(),
                    out@ == before + rep@.take(k as int),
                decreases rep.len() - k,
            {
                out.push(rep[k]);
                k = k + 1;
                assert(out@ == before + rep@.take(k as int));
            }
            assert(rep@.take(rep.len() as int) == rep@);
            assert(rest.skip(pat.len() as int) == s@.skip(i + pat.len()));
            i = i + pat.len();
        } else {
            assert(rest.skip(1) == s@.skip(i + 1));
            out.push(s[i]);
            i = i + 1;
        }
    }
    assert(s@.skip(i as int).len() == 0);
    assert(out@ + Seq::<char>::empty() == out@);
    out
}

fn replace_in(s: Vec<char>, pat: &str, rep: &str) -> (r: Vec<char>)
    requires
        pat@.len() > 0,
    ensures
        r@ == spec_replace(s@, pat@, rep@),
{
    let p = chars_of(pat);
    let q = chars_of(rep);
    replace_chars(&s, &p, &q)
}

/// The colour placeholders replaced by ANSI escape sequences, in the order in which they are
/// substituted.
pub open spec fn spec_apply_colors(s: Seq<char>) -> Seq<char> {
    let s = spec_replace(s, "{RESET}"@, "\x1b[0m"@);
    let s = spec_replace(s, "{BOLD}"@, "\x1b[1m"@);
    let s = spec_replace(s, "{DIM}"@, "\x1b[2m"@);
    let s = spec_replace(s, "{UNDERLINE}"@, "\x1b[4m"@);
    let s = spec_replace(s, "{RED}"@, "\x1b[31m"@);
    let s = spec_replace(s, "{GREEN}"@, "\x1b[32m"@);
    let s = spec_replace(s, "{YELLOW}"@, "\x1b[33m"@);
    let s = spec_replace(s, "{BLUE}"@, "\x1b[34m"@);
    let s = spec_replace(s, "{MAGENTA}"@, "\x1b[35m"@);
    let s = spec_replace(s, "{CYAN}"@, "\x1b[36m"@);
    spec_replace(s, "{WHITE}"@, "\x1b[37m"@)
}

/// Replaces the colour placeholders `{RESET}`, `{BOLD}`, `{DIM}`, `{UNDERLINE}`, `{RED}`,
/// `{GREEN}`, `{YELLOW}`, `{BLUE}`, `{MAGENTA}`, `{CYAN}` and `{WHITE}` by their ANSI escapes.
pub fn apply_colors(input: &str) -> (r: String)
    ensures
        r@ == spec_apply_colors(input@),
{
    proof {
        reveal_strlit("{RESET}");
        reveal_strlit("{BOLD}");
        reveal_strlit("{DIM}");
        reveal_strlit("{UNDERLINE}");
        reveal_strlit("{RED}");
        reveal_strlit("{GREEN}");
        reveal_strlit("{YELLOW}");
        reveal_strlit("{BLUE}");
        reveal_strlit("{MAGENTA}");
        reveal_strlit("{CYAN}");
        reveal_strlit("{WHITE}");
    }
    let s = chars_of(input);
    let s = replace_in(s, "{RESET}", "\x1b[0m");
    let s = replace_in(s, "{BOLD}", "\x1b[1m");
    let s = replace_in(s, "{DIM}", "\x1b[2m");
    let s = replace_in(s, "{UNDERLINE}", "\x1b[4m");
    let s = replace_in(s, "{RED}", "\x1b[31m");
    let s = replace_in(s, "{GREEN}", "\x1b[32m");
    let s = replace_in(s, "{YELLOW}", "\x1b[33m");
    let s = replace_in(s, "{BLUE}", "\x1b[34m");
    let s = replace_in(s, "{MAGENTA}", "\x1b[35m");
    let s = replace_in(s, "{CYAN}", "\x1b[36m");
    let s = replace_in(s, "{WHITE}", "\x1b[37m");
    string_of(&s)
}

/// The characters of `apply_colors`' result, for callers that build text as characters.
pub fn apply_colors_chars(input: &Vec<char>) -> (r: Vec<char>)
    ensures
        r@ == spec_apply_colors(input@),
{
    let s = string_of(input);
    let r = apply_colors(s.as_str());
    chars_of(r.as_str())
}

proof fn lemma_replace_absent(s: Seq<char>, pat: Seq<char>, rep: Seq<char>)
    requires
        pat.len() > 0,
        forall|i: int| 0 <= i < s.len() ==> s[i] != pat[0],
    ensures
        spec_replace(s, pat, rep) == s,
    decreases s.len(),
{
    if s.len() > 0 {
        if pat.len() <= s.len() {
            assert(s.take(pat.len() as int)[0] != pat[0]);
        }
        let t = s.skip(1);
        assert forall|i: int| 0 <= i < t.len() implies t[i] != pat[0] by {
            assert(t[i] == s[i + 1]);
        }
        lemma_replace_absent(t, pat, rep);
        assert(seq![s[0]] + t =~= s);
    }
}

/// Text without a `{` holds no colour placeholder and comes back unchanged.
pub proof fn lemma_colors_leave_plain_text(s: Seq<char>)
    requires
        forall|i: int| 0 <= i < s.len() ==> s[i] != '{',
    ensures
        spec_apply_colors(s) == s,
{
    reveal_strlit("{RESET}");
    reveal_strlit("{BOLD}");
    reveal_strlit("{DIM}");
    reveal_strlit("{UNDERLINE}");
    reveal_strlit("{RED}");
    reveal_strlit("{GREEN}");
    reveal_strlit("{YELLOW}");
    reveal_strlit("{BLUE}");
    reveal_strlit("{MAGENTA}");
    reveal_strlit("{CYAN}");
    reveal_strlit("{WHITE}");
    lemma_replace_absent(s, "{RESET}"@, "\x1b[0m"@);
    lemma_replace_absent(s, "{BOLD}"@, "\x1b[1m"@);
    lemma_replace_absent(s, "{DIM}"@, "\x1b[2m"@);
    lemma_replace_absent(s, "{UNDERLINE}"@, "\x1b[4m"@);
    lemma_replace_absent(s, "{RED}"@, "\x1b[31m"@);
    lemma_replace_absent(s, "{GREEN}"@, "\x1b[32m"@);
    lemma_replace_absent(s, "{YELLOW}"@, "\x1b[33m"@);
    lemma_replace_absent(s, "{BLUE}"@, "\x1b[34m"@);
    lemma_replace_absent(s, "{MAGENTA}"@, "\x1b[35m"@);
    lemma_replace_absent(s, "{CYAN}"@, "\x1b[36m"@);
    lemma_replace_absent(s, "{WHITE}"@, "\x1b[37m"@);
}


// ---------------------------------------------------------------------------
// Replacing the placeholders a second time changes nothing.

/// `p` occurs in `s` at `i`.
pub open spec fn occurs_at(s: Seq<char>, p: Seq<char>, i: int) -> bool {
    0 <= i && i + p.len() <= s.len() && s.subrange(i, i + p.len()) == p
}

/// `p` occurs nowhere in `s`.
pub open spec fn absent(s: Seq<char>, p: Seq<char>) -> bool {
    forall|i: int| !#[trigger] occurs_at(s, p, i)
}

/// The shape of a placeholder: `{`, then characters that are neither `{` nor an escape.
pub open spec fn placeholder_shaped(p: Seq<char>) -> bool {
    &&& p.len() >= 2
    &&& p[0] == '{'
    &&& forall|j: int| 1 <= j < p.len() ==> p[j] != '{' && p[j] != '\x1b'
}

/// The shape of a replacement: an escape, then characters that are not `{`.
pub open spec fn escape_shaped(r: Seq<char>) -> bool {
    &&& r.len() >= 1
    &&& r[0] == '\x1b'
    &&& forall|j: int| 0 <= j < r.len() ==> r[j] != '{'
}

/// Where the first `m` characters of a replacement's result hold no escape, they are the
/// first `m` characters of the text replaced in.
proof fn lemma_replace_prefix(t: Seq<char>, pat: Seq<char>, rep: Seq<char>, m: int)
    requires
        placeholder_shaped(pat),
        escape_shaped(rep),
        0 <= m <= spec_replace(t, pat, rep).len(),
        forall|j: int| 0 <= j < m ==> spec_replace(t, pat, rep)[j] != '\x1b',
    ensures
        m <= t.len(),
        spec_replace(t, pat, rep).take(m) == t.take(m),
    decreases t.len(),
{
    let r = spec_replace(t, pat, rep);
    if m > 0 && t.len() > 0 {
        if 0 < pat.len() <= t.len() && t.take(pat.len() as int) == pat {
            assert(r[0] == rep[0]);
        } else {
            let t1 = t.skip(1);
            let r1 = spec_replace(t1, pat, rep);
            assert(r == seq![t[0]] + r1);
            assert forall|j: int| 0 <= j < m - 1 implies r1[j] != '\x1b' by {
                assert(r1[j] == r[j + 1]);
            }
            lemma_replace_prefix(t1, pat, rep, m - 1);
            assert forall|j: int| 0 <= j < m implies r[j] == t[j] by {
                if j > 0 {
                    assert(r1.take(m - 1)[j - 1] == t1.take(m - 1)[j - 1]);
                }
            }
            assert(r.take(m) =~= t.take(m));
        }
    } else if m > 0 {
        assert(r.len() == 0);
    } else {
        assert(r.take(0) =~= t.take(0));
    }
}

/// An occurrence that starts at a position of `s` whose first character and following ones
/// come through a replacement unchanged was there before.
proof fn lemma_occurs_after_first(s: Seq<char>, pat: Seq<char>, rep: Seq<char>, q: Seq<char>)
    requires
        placeholder_shaped(pat),
        escape_shaped(rep),
        placeholder_shaped(q),
        s.len() > 0,
        occurs_at(seq![s[0]] + spec_replace(s.skip(1), pat, rep), q, 0),
    ensures
        occurs_at(s, q, 0),
{
    let t = s.skip(1);
    let r = spec_replace(t, pat, rep);
    let out = seq![s[0]] + r;
    let m = q.len() - 1;
    assert forall|j: int| 0 <= j < m implies r[j] != '\x1b' by {
        assert(out.subrange(0, q.len() as int)[j + 1] == q[j + 1]);
        assert(out[j + 1] == r[j]);
    }
    lemma_replace_prefix(t, pat, rep, m);
    assert forall|j: int| 0 <= j < q.len() implies s[j] == q[j] by {
        assert(out.subrange(0, q.len() as int)[j] == q[j]);
        if j > 0 {
            assert(r.take(m)[j - 1] == t.take(m)[j - 1]);
        }
    }
    assert(s.subrange(0, q.len() as int) =~= q);
}

/// A replacement leaves no occurrence of its placeholder and creates no occurrence of
/// another placeholder.
proof fn lemma_replace_clean(s: Seq<char>, pat: Seq<char>, rep: Seq<char>, q: Seq<char>)
    requires
        placeholder_shaped(pat),
        escape_shaped(rep),
        placeholder_shaped(q),
        q == pat || absent(s, q),
    ensures
        absent(spec_replace(s, pat, rep), q),
    decreases s.len(),
{
    let out = spec_replace(s, pat, rep);
    if s.len() > 0 {
        if 0 < pat.len() <= s.len() && s.take(pat.len() as int) == pat {
            let t = s.skip(pat.len() as int);
            if q != pat {
                assert forall|i: int| !#[trigger] occurs_at(t, q, i) by {
                    if occurs_at(t, q, i) {
                        assert(s.subrange(i + pat.len(), i + pat.len() + q.len()) =~= t.subrange(
                            i,
                            i + q.len(),
                        ));
                        assert(occurs_at(s, q, i + pat.len()));
                    }
                }
            }
            lemma_replace_clean(t, pat, rep, q);
            let r = spec_replace(t, pat, rep);
            assert(out == rep + r);
            assert forall|i: int| !#[trigger] occurs_at(out, q, i) by {
                if occurs_at(out, q, i) {
                    if i < rep.len() {
                        assert(out.subrange(i, i + q.len())[0] == q[0]);
                        assert(out[i] == rep[i]);
                    } else {
                        assert(r.subrange(i - rep.len(), i - rep.len() + q.len()) =~= out.subrange(
                            i,
                            i + q.len(),
                        ));
                        assert(occurs_at(r, q, i - rep.len()));
                    }
                }
            }
        } else {
            let t = s.skip(1);
            if q != pat {
                assert forall|i: int| !#[trigger] occurs_at(t, q, i) by {
                    if occurs_at(t, q, i) {
                        assert(s.subrange(i + 1, i + 1 + q.len()) =~= t.subrange(i, i + q.len()));
                        assert(occurs_at(s, q, i + 1));
                    }
                }
            }
            lemma_replace_clean(t, pat, rep, q);
            let r = spec_replace(t, pat, rep);
            assert(out == seq![s[0]] + r);
            assert forall|i: int| !#[trigger] occurs_at(out, q, i) by {
                if occurs_at(out, q, i) {
                    if i == 0 {
                        lemma_occurs_after_first(s, pat, rep, q);
                        if q == pat {
                            assert(s.take(pat.len() as int) =~= s.subrange(0, pat.len() as int));
                        } else {
                            assert(occurs_at(s, q, 0));
                        }
                    } else {
                        assert(r.subrange(i - 1, i - 1 + q.len()) =~= out.subrange(i, i + q.len()));
                        assert(occurs_at(r, q, i - 1));
                    }
                }
            }
        }
    }
}

/// Replacing a placeholder that occurs nowhere changes nothing.
proof fn lemma_replace_nothing(s: Seq<char>, pat: Seq<char>, rep: Seq<char>)
    requires
        pat.len() > 0,
        absent(s, pat),
    ensures
        spec_replace(s, pat, rep) == s,
    decreases s.len(),
{
    if s.len() > 0 {
        if pat.len() <= s.len() && s.take(pat.len() as int) == pat {
            assert(s.subrange(0, pat.len() as int) =~= s.take(pat.len() as int));
            assert(occurs_at(s, pat, 0));
        }
        let t = s.skip(1);
        assert forall|i: int| !#[trigger] occurs_at(t, pat, i) by {
            if occurs_at(t, pat, i) {
                assert(s.subrange(i + 1, i + 1 + pat.len()) =~= t.subrange(i, i + pat.len()));
                assert(occurs_at(s, pat, i + 1));
            }
        }
        lemma_replace_nothing(t, pat, rep);
        assert(seq![s[0]] + t =~= s);
    }
}


proof fn lemma_replace_step(s: Seq<char>, pat: Seq<char>, rep: Seq<char>, done: Seq<Seq<char>>)
    requires
        placeholder_shaped(pat),
        escape_shaped(rep),
        forall|j: int| 0 <= j < done.len() ==> placeholder_shaped(#[trigger] done[j]) && absent(s, done[j]),
    ensures
        forall|j: int|
            0 <= j < done.push(pat).len() ==> placeholder_shaped(#[trigger] done.push(pat)[j])
                && absent(spec_replace(s, pat, rep), done.push(pat)[j]),
{
    assert forall|j: int| 0 <= j < done.push(pat).len() implies placeholder_shaped(
        #[trigger] done.push(pat)[j],
    ) && absent(spec_replace(s, pat, rep), done.push(pat)[j]) by {
        if j < done.len() {
            assert(done.push(pat)[j] == done[j]);
            lemma_replace_clean(s, pat, rep, done[j]);
        } else {
            lemma_replace_clean(s, pat, rep, pat);
        }
    }
}

/// The placeholders, in the order in which they are replaced, and their escapes.
pub open spec fn placeholders() -> Seq<Seq<char>> {
    seq![
        "{RESET}"@, "{BOLD}"@, "{DIM}"@, "{UNDERLINE}"@, "{RED}"@, "{GREEN}"@, "{YELLOW}"@,
        "{BLUE}"@, "{MAGENTA}"@, "{CYAN}"@, "{WHITE}"@,
    ]
}

pub open spec fn escapes() -> Seq<Seq<char>> {
    seq![
        "\x1b[0m"@, "\x1b[1m"@, "\x1b[2m"@, "\x1b[4m"@, "\x1b[31m"@, "\x1b[32m"@, "\x1b[33m"@,
        "\x1b[34m"@, "\x1b[35m"@, "\x1b[36m"@, "\x1b[37m"@,
    ]
}

/// The placeholders replaced one after the other, the first `n` of them.
pub open spec fn replace_first(s: Seq<char>, n: int) -> Seq<char>
    decreases n,
{
    if n <= 0 {
        s
    } else {
        spec_replace(replace_first(s, n - 1), placeholders()[n - 1], escapes()[n - 1])
    }
}

proof fn lemma_shapes()
    ensures
        placeholders().len() == 11,
        escapes().len() == 11,
        forall|k: int| 0 <= k < 11 ==> placeholder_shaped(#[trigger] placeholders()[k]),
        forall|k: int| 0 <= k < 11 ==> escape_shaped(#[trigger] escapes()[k]),
{
    reveal_strlit("{RESET}");
    reveal_strlit("{BOLD}");
    reveal_strlit("{DIM}");
    reveal_strlit("{UNDERLINE}");
    reveal_strlit("{RED}");
    reveal_strlit("{GREEN}");
    reveal_strlit("{YELLOW}");
    reveal_strlit("{BLUE}");
    reveal_strlit("{MAGENTA}");
    reveal_strlit("{CYAN}");
    reveal_strlit("{WHITE}");
    reveal_strlit("\x1b[0m");
    reveal_strlit("\x1b[1m");
    reveal_strlit("\x1b[2m");
    reveal_strlit("\x1b[4m");
    reveal_strlit("\x1b[31m");
    reveal_strlit("\x1b[32m");
    reveal_strlit("\x1b[33m");
    reveal_strlit("\x1b[34m");
    reveal_strlit("\x1b[35m");
    reveal_strlit("\x1b[36m");
    reveal_strlit("\x1b[37m");
}

/// After the first `n` placeholders are replaced, none of them occurs any more.
proof fn lemma_replace_first_clean(s: Seq<char>, n: int)
    requires
        0 <= n <= 11,
    ensures
        forall|j: int|
            0 <= j < n ==> placeholder_shaped(#[trigger] placeholders().take(n)[j]) && absent(
                replace_first(s, n),
                placeholders().take(n)[j],
            ),
    decreases n,
{
    lemma_shapes();
    if n > 0 {
        lemma_replace_first_clean(s, n - 1);
        let ps = placeholders();
        assert(ps.take(n) =~= ps.take(n - 1).push(ps[n - 1]));
        lemma_replace_step(replace_first(s, n - 1), ps[n - 1], escapes()[n - 1], ps.take(n - 1));
    }
}

proof fn lemma_replace_first_fixed(t: Seq<char>, n: int)
    requires
        0 <= n <= 11,
        forall|j: int| 0 <= j < 11 ==> absent(t, #[trigger] placeholders()[j]),
    ensures
        replace_first(t, n) == t,
    decreases n,
{
    lemma_shapes();
    if n > 0 {
        lemma_replace_first_fixed(t, n - 1);
        lemma_replace_nothing(t, placeholders()[n - 1], escapes()[n - 1]);
    }
}

proof fn lemma_apply_is_replace_first(s: Seq<char>)
    ensures
        spec_apply_colors(s) == replace_first(s, 11),
{
    reveal_with_fuel(replace_first, 12);
}

/// Replacing the colour placeholders a second time changes nothing: the result holds none.
pub proof fn lemma_colors_idempotent(s: Seq<char>)
    ensures
        spec_apply_colors(spec_apply_colors(s)) == spec_apply_colors(s),
{
    let t = spec_apply_colors(s);
    lemma_apply_is_replace_first(s);
    lemma_apply_is_replace_first(t);
    lemma_replace_first_clean(s, 11);
    assert(placeholders().take(11) =~= placeholders());
    lemma_shapes();
    lemma_replace_first_fixed(t, 11);
}

} // verus!
