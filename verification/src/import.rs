use vstd::prelude::*;
use crate::lexer::{is_whitespace, spec_is_whitespace};
use crate::text::{chars_of, push_str, string_of, strings_view};

verus! {

// Import lines of a source file: `import "name"` pulls in another file.

/// `s` without its leading whitespace (std's `str::trim_start`).
pub open spec fn spec_trim_start(s: Seq<char>) -> Seq<char>
    decreases s.len(),
{
    if s.len() > 0 && spec_is_whitespace(s[0]) {
        spec_trim_start(s.drop_first())
    } else {
        s
    }
}

/// The first index at or after `i` that holds `c`.
pub open spec fn index_of_from(s: Seq<char>, c: char, i: int) -> Option<int>
    decreases s.len() - i,
{
    if i < 0 || i >= s.len() {
        None
    } else if s[i] == c {
        Some(i)
    } else {
        index_of_from(s, c, i + 1)
    }
}

/// Model of a classified source line.
pub enum SpecSourceLine {
    Plain,
    Import(Seq<char>),
    Invalid,
}

/// A line of a source file: an ordinary line, an import of the file named in it, or a line
/// that starts like an import but is not one.
#[derive(Debug)]
pub enum SourceLine {
    Plain,
    Import(String),
    Invalid,
}

impl View for SourceLine {
    type V = SpecSourceLine;

    open spec fn view(&self) -> SpecSourceLine {
        match self {
            SourceLine::Plain => SpecSourceLine::Plain,
            SourceLine::Import(s) => SpecSourceLine::Import(s@),
            SourceLine::Invalid => SpecSourceLine::Invalid,
        }
    }
}

/// A line is an import when, after leading whitespace, it starts with `import `, then after
/// more whitespace a double quote, and the name runs up to the next double quote.
pub open spec fn spec_classify_line(line: Seq<char>) -> SpecSourceLine {
    let t = spec_trim_start(line);
    if "import "@.is_prefix_of(t) {
        let rest = spec_trim_start(t.skip(7));
        if rest.len() > 0 && rest[0] == '"' {
            let name = rest.skip(1);
            match index_of_from(name, '"', 0) {
                Some(end) => SpecSourceLine::Import(name.take(end)),
                None => SpecSourceLine::Invalid,
            }
        } else {
            SpecSourceLine::Invalid
        }
    } else {
        SpecSourceLine::Plain
    }
}

/// The position of the first character of `s` at or after `i` that is not whitespace.
fn skip_whitespace(s: &Vec<char>, i: usize) -> (r: usize)
    requires
        i <= s.len(),
    ensures
        i <= r <= s.len(),
        s@.skip(r as int) == spec_trim_start(s@.skip(i as int)),
{
    let mut j = i;
    while j < s.len() && is_whitespace(s[j])
        invariant
            i <= j <= s.len(),
            spec_trim_start(s@.skip(j as int)) == spec_trim_start(s@.skip(i as int)),
        decreases s.len() - j,
    {
        assert(s@.skip(j as int).drop_first() =~= s@.skip(j + 1));
        j = j + 1;
    }
    j
}

/// Classifies a line of a source file.
pub fn classify_line(line: &str) -> (r: SourceLine)
    ensures
        r@ == spec_classify_line(line@),
{
    let cs = chars_of(line);
    assert(cs@.skip(0) =~= cs@);
    let t = skip_whitespace(&cs, 0);
    let kw = chars_of("import ");
    proof {
        reveal_strlit("import ");
    }
    let ghost ts = cs@.skip(t as int);
    if cs.len() - t < 7 {
        assert(!"import "@.is_prefix_of(ts));
        return SourceLine::Plain;
    }
    let mut k: usize = 0;
    while k < 7
        invariant
            k <= 7,
            t + 7 <= cs.len(),
            kw@ == "import "@,
            kw@.len() == 7,
            cs@ == line@,
            ts == cs@.skip(t as int),
            ts == spec_trim_start(line@),
            forall|m: int| 0 <= m < k ==> ts[m] == kw@[m],
        decreases 7 - k,
    {
        if cs[t + k] != kw[k] {
            assert(ts[k as int] != "import "@[k as int]);
            return SourceLine::Plain;
        }
        k = k + 1;
    }
    assert("import "@.is_prefix_of(ts)) by {
        assert(ts.take(7) =~= "import "@);
    }
    let r = skip_whitespace(&cs, t + 7);
    assert(cs@.skip(t + 7) =~= ts.skip(7));
    if r >= cs.len() || cs[r] != '"' {
        return SourceLine::Invalid;
    }
    let ghost name = cs@.skip(r + 1);
    assert(cs@.skip(r as int).skip(1) =~= name);
    let mut e = r + 1;
    while e < cs.len() && cs[e] != '"'
        invariant
            r + 1 <= e <= cs.len(),
            name == cs@.skip(r + 1),
            index_of_from(name, '"', 0) == index_of_from(name, '"', e - (r + 1)),
        decreases cs.len() - e,
    {
        e = e + 1;
    }
    if e >= cs.len() {
        return SourceLine::Invalid;
    }
    let mut fname: Vec<char> = Vec::new();
    let mut m = r + 1;
    while m < e
        invariant
            r + 1 <= m <= e < cs.len(),
            fname@ == cs@.subrange(r + 1, m as int),
        decreases e - m,
    {
        fname.push(cs[m]);
        m = m + 1;
        assert(fname@ =~= cs@.subrange(r + 1, m as int));
    }
    assert(fname@ =~= name.take(e - (r + 1)));
    SourceLine::Import(string_of(&fname))
}

/// The message for an import line that is not well formed.
pub fn invalid_import_message(line: &str) -> (r: String)
    ensures
        r@ == "invalid import syntax: "@ + line@,
{
    let mut m: Vec<char> = Vec::new();
    push_str(&mut m, "invalid import syntax: ");
    push_str(&mut m, line);
    string_of(&m)
}

/// The texts `parts[i..]`, separated by `sep`.
pub open spec fn spec_join_from(parts: Seq<Seq<char>>, sep: Seq<char>, i: int) -> Seq<char>
    decreases parts.len() - i,
{
    if i < 0 || i >= parts.len() {
        Seq::empty()
    } else {
        (if i > 0 {
            sep
        } else {
            Seq::empty()
        }) + parts[i] + spec_join_from(parts, sep, i + 1)
    }
}

/// The message for an import that was found nowhere: the name, and the paths tried.
pub fn import_not_found_message(fname: &str, tried: &Vec<String>) -> (r: String)
    ensures
        r@ == "import \""@ + fname@ + "\" not found. tried: "@ + spec_join_from(
            strings_view(tried@),
            ", "@,
            0,
        ),
{
    let mut m: Vec<char> = Vec::new();
    push_str(&mut m, "import \"");
    push_str(&mut m, fname);
    push_str(&mut m, "\" not found. tried: ");
    let ghost mid = m@;
    let ghost tv = strings_view(tried@);
    let mut i: usize = 0;
    while i < tried.len()
        invariant
            i <= tried.len(),
            tv == strings_view(tried@),
            m@ + spec_join_from(tv, ", "@, i as int) == mid + spec_join_from(tv, ", "@, 0),
        decreases tried.len() - i,
    {
        let ghost before = m@;
        if i > 0 {
            push_str(&mut m, ", ");
        }
        push_str(&mut m, tried[i].as_str());
        proof {
            let sep = if i > 0 {
                ", "@
            } else {
                Seq::<char>::empty()
            };
            assert(m@ =~= before + sep + tv[i as int]);
            assert(before + spec_join_from(tv, ", "@, i as int) =~= m@ + spec_join_from(
                tv,
                ", "@,
                i + 1,
            ));
        }
        i = i + 1;
    }
    assert(m@ =~= "import \""@ + fname@ + "\" not found. tried: "@ + spec_join_from(tv, ", "@, 0));
    string_of(&m)
}

proof fn lemma_index_of_from(s: Seq<char>, c: char, i: int)
    requires
        0 <= i,
    ensures
        index_of_from(s, c, i) matches Some(k) ==> i <= k < s.len() && s[k] == c && forall|j: int|
            i <= j < k ==> s[j] != c,
    decreases s.len() - i,
{
    if i < s.len() && s[i] != c {
        lemma_index_of_from(s, c, i + 1);
    }
}

/// The name that an import line gives holds no double quote.
pub proof fn lemma_import_name_unquoted(line: Seq<char>)
    ensures
        spec_classify_line(line) matches SpecSourceLine::Import(name) ==> forall|j: int|
            0 <= j < name.len() ==> name[j] != '"',
{
    let t = spec_trim_start(line);
    if "import "@.is_prefix_of(t) {
        let rest = spec_trim_start(t.skip(7));
        if rest.len() > 0 && rest[0] == '"' {
            let name = rest.skip(1);
            lemma_index_of_from(name, '"', 0);
        }
    }
}


// ---------------------------------------------------------------------------
// Putting a file together with the files it imports.

/// The number of import lines among `lines[i..]` before the first line that is not a
/// well-formed import.
pub open spec fn imports_from(lines: Seq<Seq<char>>, i: int) -> nat
    decreases lines.len() - i,
{
    if i < 0 || i >= lines.len() {
        0
    } else {
        match spec_classify_line(lines[i]) {
            SpecSourceLine::Plain => imports_from(lines, i + 1),
            SpecSourceLine::Import(_) => 1 + imports_from(lines, i + 1),
            SpecSourceLine::Invalid => 0,
        }
    }
}

/// The text of `lines[i..]`: each ordinary line, and in place of the `k`-th import line (and
/// those after it) the loaded text `loaded[k]`, each followed by a line break; or, at the first
/// line that is not a well-formed import, its message.
pub open spec fn splice_from(lines: Seq<Seq<char>>, loaded: Seq<Seq<char>>, i: int, k: int) -> Result<
    Seq<char>,
    Seq<char>,
>
    decreases lines.len() - i,
{
    if i < 0 || i >= lines.len() {
        Ok(Seq::empty())
    } else {
        let (part, next) = match spec_classify_line(lines[i]) {
            SpecSourceLine::Import(_) => (Some(loaded[k]), k + 1),
            SpecSourceLine::Plain => (Some(lines[i]), k),
            SpecSourceLine::Invalid => (None, k),
        };
        match part {
            None => Err("invalid import syntax: "@ + lines[i]),
            Some(t) => match splice_from(lines, loaded, i + 1, next) {
                Ok(rest) => Ok(t + "\n"@ + rest),
                Err(m) => Err(m),
            },
        }
    }
}

pub open spec fn prepend_text(pre: Seq<char>, r: Result<Seq<char>, Seq<char>>) -> Result<
    Seq<char>,
    Seq<char>,
> {
    match r {
        Ok(t) => Ok(pre + t),
        Err(m) => Err(m),
    }
}

pub open spec fn result_view(r: Result<String, String>) -> Result<Seq<char>, Seq<char>> {
    match r {
        Ok(t) => Ok(t@),
        Err(m) => Err(m@),
    }
}

/// The source text of a file whose lines are `lines`, with each import line replaced by the
/// text loaded for it (`loaded`, in the order of the import lines), each part followed by a
/// line break; or the message for the first line that is not a well-formed import.
pub fn splice_imports(lines: &Vec<String>, loaded: &Vec<String>) -> (r: Result<String, String>)
    requires
        imports_from(strings_view(lines@), 0) <= loaded.len(),
    ensures
        result_view(r) == splice_from(strings_view(lines@), strings_view(loaded@), 0, 0),
{
    let ghost lv = strings_view(lines@);
    let ghost ld = strings_view(loaded@);
    let mut out: Vec<char> = Vec::new();
    let mut i: usize = 0;
    let mut k: usize = 0;
    while i < lines.len()
        invariant
            i <= lines.len(),
            lv == strings_view(lines@),
            ld == strings_view(loaded@),
            k + imports_from(lv, i as int) == imports_from(lv, 0),
            imports_from(lv, 0) <= loaded.len(),
            prepend_text(out@, splice_from(lv, ld, i as int, k as int)) == splice_from(lv, ld, 0, 0),
        decreases lines.len() - i,
    {
        let ghost before = out@;
        let line = &lines[i];
        match classify_line(line.as_str()) {
            SourceLine::Invalid => {
                return Err(invalid_import_message(line.as_str()));
            },
            SourceLine::Import(_) => {
                push_str(&mut out, loaded[k].as_str());
                out.push('\n');
                proof {
                    reveal_strlit("\n");
                    assert(out@ =~= before + ld[k as int] + "\n"@);
                    match splice_from(lv, ld, i + 1, k + 1) {
                        Ok(rest) => {
                            assert(before + (ld[k as int] + "\n"@ + rest) =~= out@ + rest);
                        },
                        Err(_) => {},
                    }
                }
                k = k + 1;
            },
            SourceLine::Plain => {
                push_str(&mut out, line.as_str());
                out.push('\n');
                proof {
                    reveal_strlit("\n");
                    assert(out@ =~= before + lv[i as int] + "\n"@);
                    match splice_from(lv, ld, i + 1, k as int) {
                        Ok(rest) => {
                            assert(before + (lv[i as int] + "\n"@ + rest) =~= out@ + rest);
                        },
                        Err(_) => {},
                    }
                }
            },
        }
        i = i + 1;
    }
    assert(out@ + Seq::<char>::empty() =~= out@);
    Ok(string_of(&out))
}


/// Where the file named by an import is read from.
pub enum ImportSource {
    /// Beside the importing file.
    Primary,
    /// In the extra import directory.
    Secondary,
    /// Nowhere: the message that names every path tried.
    NotFound(String),
}

/// The message for an import that was found nowhere, over the paths tried.
pub open spec fn spec_not_found(fname: Seq<char>, tried: Seq<Seq<char>>) -> Seq<char> {
    "import \""@ + fname + "\" not found. tried: "@ + spec_join_from(tried, ", "@, 0)
}

/// Decides where the import `fname` is read from, given which candidate files exist: the file
/// beside the importing one (`primary`) when it exists; else, when an extra import directory
/// is given, the file there (`secondary`) when that exists; otherwise nowhere, with the message
/// that names the paths tried, in the order they were tried.
pub fn resolve_import(
    fname: &str,
    primary: &String,
    primary_exists: bool,
    secondary: &Option<String>,
    secondary_exists: bool,
) -> (r: ImportSource)
    ensures
        primary_exists ==> r is Primary,
        !primary_exists && secondary is Some && secondary_exists ==> r is Secondary,
        !primary_exists && secondary is Some && !secondary_exists ==> (r matches ImportSource::NotFound(
            m,
        ) && m@ == spec_not_found(fname@, seq![primary@, secondary->0@])),
        !primary_exists && secondary is None ==> (r matches ImportSource::NotFound(m) && m@
            == spec_not_found(fname@, seq![primary@])),
{
    if primary_exists {
        return ImportSource::Primary;
    }
    let mut tried: Vec<String> = Vec::new();
    tried.push(primary.clone());
    match secondary {
        Some(s) => {
            if secondary_exists {
                return ImportSource::Secondary;
            }
            tried.push(s.clone());
            assert(strings_view(tried@) =~= seq![primary@, s@]);
        },
        None => {
            assert(strings_view(tried@) =~= seq![primary@]);
        },
    }
    ImportSource::NotFound(import_not_found_message(fname, &tried))
}

} // verus!
