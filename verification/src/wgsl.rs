//! A minimal WGSL include preprocessor.
//!
//! Shader files may hold lines of the form `#include <name>`. One pass
//! replaces every such line by the named file's text; passes repeat until
//! no `#include` token is left anywhere in the text. An include of a file
//! that the file set does not hold is an error. The pass semantics is
//! modelled exactly: splitting into lines follows `str::lines` (a line
//! ends at a line feed, an immediately preceding carriage return is
//! dropped, a final empty segment is dropped), and lines are rejoined
//! with a single line feed.

use vstd::prelude::*;

verus! {

/// Why preprocessing failed.
#[derive(Clone, Copy, PartialEq, Eq, Structural, Debug)]
pub enum PreprocessError {
    /// A line includes a file that the file set does not hold.
    MissingInclude,
    /// The requested top-level file is not in the file set.
    FileNotPresent,
    /// The include keyword still occurred after more passes than the
    /// file set has entries, so no further pass can resolve it: a
    /// cyclic include chain, or keyword text that no pass rewrites.
    CyclicInclude,
}

impl PreprocessError {
    /// A human-readable description of the error.
    pub fn message(&self) -> (r: &'static str)
        ensures
            *self is MissingInclude ==> r@ == "failed to find file"@,
            *self is FileNotPresent ==> r@ == "file not present"@,
            *self is CyclicInclude ==> r@ == "cyclic include"@,
    {
        match self {
            PreprocessError::MissingInclude => "failed to find file",
            PreprocessError::FileNotPresent => "file not present",
            PreprocessError::CyclicInclude => "cyclic include",
        }
    }
}

/// The include keyword, as a character sequence.
pub open spec fn include_kw() -> Seq<char> {
    seq!['#', 'i', 'n', 'c', 'l', 'u', 'd', 'e']
}

/// The prefix that makes a line an include directive: the keyword
/// followed by one space; the rest of the line is the file name.
pub open spec fn include_prefix() -> Seq<char> {
    include_kw().push(' ')
}

/// Whether the keyword occurs anywhere in `s`: the condition under which
/// another expansion pass runs.
pub open spec fn has_include(s: Seq<char>) -> bool {
    exists|i: int| 0 <= i && i + 8 <= s.len() && #[trigger] s.subrange(i, i + 8) == include_kw()
}

/// A line with a trailing carriage return dropped, as line splitting
/// does at each line feed.
pub open spec fn strip_cr(line: Seq<char>) -> Seq<char> {
    if line.len() > 0 && line.last() == '\r' {
        line.drop_last()
    } else {
        line
    }
}

/// Line splitting, scanning `s` with `acc` holding the current unfinished
/// line: at a line feed the current line is finished (minus a trailing
/// carriage return); a last unfinished line is kept only if non-empty.
pub open spec fn lines_from(acc: Seq<char>, s: Seq<char>) -> Seq<Seq<char>>
    decreases s.len(),
{
    if s.len() == 0 {
        if acc.len() == 0 {
            Seq::empty()
        } else {
            seq![acc]
        }
    } else if s[0] == '\n' {
        seq![strip_cr(acc)] + lines_from(Seq::empty(), s.drop_first())
    } else {
        lines_from(acc.push(s[0]), s.drop_first())
    }
}

/// The lines of `s`, as `str::lines` yields them.
pub open spec fn spec_lines(s: Seq<char>) -> Seq<Seq<char>> {
    lines_from(Seq::empty(), s)
}

/// Lines rejoined with a single line feed between them.
pub open spec fn join_nl(lines: Seq<Seq<char>>) -> Seq<char>
    decreases lines.len(),
{
    if lines.len() == 0 {
        Seq::empty()
    } else if lines.len() == 1 {
        lines[0]
    } else {
        lines[0].push('\n') + join_nl(lines.drop_first())
    }
}

/// The characters of `s`, one element per `char`.
fn char_vec_from_str(s: &str) -> (v: Vec<char>)
    ensures
        v@ == s@,
{
    let n = s.unicode_len();
    let mut v: Vec<char> = Vec::new();
    let mut i: usize = 0;
    while i < n
        invariant
            n == s@.len(),
            i <= n,
            v@ == s@.subrange(0, i as int),
        decreases n - i,
    {
        v.push(s.get_char(i));
        i = i + 1;
        proof {
            assert(v@ =~= s@.subrange(0, i as int));
        }
    }
    proof {
        assert(v@ =~= s@);
    }
    v
}

/// Relies on `String::push`: appends one character to the string.
#[verifier::external_body]
fn push_char(s: &mut String, c: char)
    ensures
        final(s)@ == old(s)@.push(c),
{
    s.push(c);
}

/// A `String` with exactly the characters of `v`.
fn string_from_chars(v: &Vec<char>) -> (s: String)
    ensures
        s@ == v@,
{
    let mut s = String::new();
    let mut i: usize = 0;
    while i < v.len()
        invariant
            i <= v@.len(),
            s@ == v@.subrange(0, i as int),
        decreases v@.len() - i,
    {
        push_char(&mut s, v[i]);
        i = i + 1;
        proof {
            assert(s@ =~= v@.subrange(0, i as int));
        }
    }
    proof {
        assert(s@ =~= v@);
    }
    s
}

/// A copy of a character vector.
fn copy_chars(v: &Vec<char>) -> (r: Vec<char>)
    ensures
        r@ == v@,
{
    let mut r: Vec<char> = Vec::new();
    let mut i: usize = 0;
    while i < v.len()
        invariant
            i <= v@.len(),
            r@ == v@.subrange(0, i as int),
        decreases v@.len() - i,
    {
        r.push(v[i]);
        i = i + 1;
        proof {
            assert(r@ =~= v@.subrange(0, i as int));
        }
    }
    proof {
        assert(r@ =~= v@);
    }
    r
}

/// Whether two character vectors hold the same characters.
fn chars_eq(a: &Vec<char>, b: &Vec<char>) -> (r: bool)
    ensures
        r == (a@ == b@),
{
    if a.len() != b.len() {
        proof {
            assert(a@ != b@);
        }
        return false;
    }
    let mut i: usize = 0;
    while i < a.len()
        invariant
            a@.len() == b@.len(),
            i <= a@.len(),
            forall|k: int| 0 <= k < i ==> a@[k] == b@[k],
        decreases a@.len() - i,
    {
        if a[i] != b[i] {
            proof {
                assert(a@ != b@);
            }
            return false;
        }
        i = i + 1;
    }
    proof {
        assert(a@ =~= b@);
    }
    true
}

/// Whether the keyword stands at position `i` of `text`.
fn kw_at(text: &Vec<char>, i: usize) -> (r: bool)
    requires
        i + 8 <= text@.len(),
    ensures
        r == (text@.subrange(i as int, i as int + 8) == include_kw()),
{
    let n = text.len();
    let r = text[i] == '#' && text[i + 1] == 'i' && text[i + 2] == 'n' && text[i + 3] == 'c'
        && text[i + 4] == 'l' && text[i + 5] == 'u' && text[i + 6] == 'd' && text[i + 7] == 'e';
    proof {
        let sub = text@.subrange(i as int, i as int + 8);
        if r {
            assert(sub =~= include_kw());
        } else {
            if sub == include_kw() {
                assert(text@[i as int] == sub[0] && text@[i as int + 1] == sub[1] && text@[i as int
                    + 2] == sub[2] && text@[i as int + 3] == sub[3] && text@[i as int + 4] == sub[4]
                    && text@[i as int + 5] == sub[5] && text@[i as int + 6] == sub[6] && text@[
                i as int + 7] == sub[7]);
                assert(false);
            }
        }
    }
    r
}

/// Whether the keyword occurs anywhere in `text`.
fn find_include(text: &Vec<char>) -> (r: bool)
    ensures
        r == has_include(text@),
{
    let n = text.len();
    if n < 8 {
        proof {
            assert(!has_include(text@));
        }
        return false;
    }
    let mut i: usize = 0;
    while i <= n - 8
        invariant
            n == text@.len(),
            8 <= n,
            i <= n - 8 + 1,
            forall|k: int|
                0 <= k < i ==> #[trigger] text@.subrange(k, k + 8) != include_kw(),
        decreases text@.len() - i,
    {
        if kw_at(text, i) {
            proof {
                assert(has_include(text@));
            }
            return true;
        }
        i = i + 1;
    }
    proof {
        assert(forall|k: int|
            0 <= k && k + 8 <= text@.len() ==> #[trigger] text@.subrange(k, k + 8)
                != include_kw());
        assert(!has_include(text@));
    }
    false
}

/// First-match lookup of `name` among `es`, newest entries first.
spec fn sget(es: Seq<(Vec<char>, Vec<char>)>, name: Seq<char>) -> Option<Seq<char>>
    decreases es.len(),
{
    if es.len() == 0 {
        None
    } else if es[0].0@ == name {
        Some(es[0].1@)
    } else {
        sget(es.drop_first(), name)
    }
}

/// The shader files available for inclusion, keyed by file name.
pub struct FileMap {
    entries: Vec<(Vec<char>, Vec<char>)>,
}

impl FileMap {
    /// The text stored under `name`, if any.
    pub closed spec fn spec_get(self, name: Seq<char>) -> Option<Seq<char>> {
        sget(self.entries@, name)
    }

    /// How many entries the set stores; shadowed entries still count.
    pub closed spec fn spec_len(self) -> nat {
        self.entries@.len()
    }

    /// The number of stored entries.
    pub fn len(&self) -> (r: usize)
        ensures
            r == self.spec_len(),
    {
        self.entries.len()
    }

    /// An empty file set.
    pub fn new() -> (r: FileMap)
        ensures
            forall|n: Seq<char>| r.spec_get(n) is None,
    {
        FileMap { entries: Vec::new() }
    }

    /// Stores `text` under `name`, shadowing any earlier entry of that name.
    pub fn insert(&mut self, name: &str, text: &str)
        ensures
            forall|n: Seq<char>|
                final(self).spec_get(n) == if n == name@ {
                    Some(text@)
                } else {
                    old(self).spec_get(n)
                },
    {
        let pair = (char_vec_from_str(name), char_vec_from_str(text));
        self.entries.insert(0, pair);
        proof {
            assert(self.entries@.drop_first() =~= old(self).entries@);
        }
    }

    /// Looks `name` up in the file set.
    pub fn get<'a>(&'a self, name: &Vec<char>) -> (r: Option<&'a Vec<char>>)
        ensures
            match r {
                Some(t) => self.spec_get(name@) == Some(t@),
                None => self.spec_get(name@) is None,
            },
    {
        let n = self.entries.len();
        let mut i: usize = 0;
        proof {
            assert(self.entries@.subrange(0, n as int) =~= self.entries@);
        }
        while i < n
            invariant
                n == self.entries@.len(),
                i <= n,
                sget(self.entries@, name@) == sget(
                    self.entries@.subrange(i as int, n as int),
                    name@,
                ),
            decreases n - i,
        {
            proof {
                assert(self.entries@.subrange(i as int, n as int)[0] == self.entries@[i as int]);
            }
            if chars_eq(&self.entries[i].0, name) {
                return Some(&self.entries[i].1);
            }
            proof {
                assert(self.entries@.subrange(i as int, n as int).drop_first() =~= self.entries@
                    .subrange(i as int + 1, n as int));
            }
            i = i + 1;
        }
        proof {
            assert(self.entries@.subrange(n as int, n as int).len() == 0);
        }
        None
    }
}

/// The lines of `text`, split as the model describes.
fn split_lines(text: &Vec<char>) -> (ls: Vec<Vec<char>>)
    ensures
        ls.deep_view() == spec_lines(text@),
{
    let n = text.len();
    let mut out: Vec<Vec<char>> = Vec::new();
    let mut cur: Vec<char> = Vec::new();
    let mut i: usize = 0;
    proof {
        assert(text@.subrange(0, n as int) =~= text@);
        assert(out.deep_view() + lines_from(cur@, text@) =~= lines_from(cur@, text@));
    }
    while i < n
        invariant
            n == text@.len(),
            i <= n,
            spec_lines(text@) == out.deep_view() + lines_from(
                cur@,
                text@.subrange(i as int, n as int),
            ),
        decreases n - i,
    {
        let ghost out0 = out.deep_view();
        let ghost cur0 = cur@;
        let ghost rest = text@.subrange(i as int, n as int);
        proof {
            assert(rest[0] == text@[i as int]);
            assert(rest.drop_first() =~= text@.subrange(i as int + 1, n as int));
        }
        let c = text[i];
        if c == '\n' {
            if cur.len() > 0 && cur[cur.len() - 1] == '\r' {
                cur.pop();
            }
            proof {
                assert(cur@ == strip_cr(cur0));
            }
            out.push(cur);
            cur = Vec::new();
            proof {
                assert(out.deep_view() =~~= out0.push(strip_cr(cur0)));
                assert(out0.push(strip_cr(cur0)) + lines_from(cur@, rest.drop_first()) =~= out0 + (
                seq![strip_cr(cur0)] + lines_from(cur@, rest.drop_first())));
            }
        } else {
            cur.push(c);
        }
        i = i + 1;
    }
    proof {
        assert(text@.subrange(n as int, n as int).len() == 0);
    }
    if cur.len() > 0 {
        let ghost out0 = out.deep_view();
        let ghost cur0 = cur@;
        out.push(cur);
        proof {
            assert(out.deep_view() =~~= out0.push(cur0));
            assert(out0.push(cur0) =~= out0 + seq![cur0]);
        }
    } else {
        proof {
            assert(out.deep_view() =~= out.deep_view() + lines_from(
                cur@,
                text@.subrange(n as int, n as int),
            ));
        }
    }
    out
}

/// Joining one more line appends a separating line feed unless the
/// joined part was empty.
proof fn lemma_join_push(ls: Seq<Seq<char>>, x: Seq<char>)
    ensures
        join_nl(ls.push(x)) == if ls.len() == 0 {
            x
        } else {
            join_nl(ls) + seq!['\n'] + x
        },
    decreases ls.len(),
{
    let l2 = ls.push(x);
    if ls.len() == 0 {
        assert(l2.len() == 1);
        assert(l2[0] == x);
    } else if ls.len() == 1 {
        assert(l2.len() == 2);
        assert(l2[0] == ls[0]);
        assert(l2.drop_first() =~= seq![x]);
        assert(join_nl(seq![x]) == seq![x][0]);
        assert(join_nl(l2.drop_first()) == x);
        assert(join_nl(l2) == l2[0].push('\n') + join_nl(l2.drop_first()));
        assert(join_nl(ls) == ls[0]);
        assert(ls[0].push('\n') + x =~= ls[0] + seq!['\n'] + x);
    } else {
        lemma_join_push(ls.drop_first(), x);
        assert(l2[0] == ls[0]);
        assert(l2.drop_first() =~= ls.drop_first().push(x));
        assert(join_nl(l2) == l2[0].push('\n') + join_nl(l2.drop_first()));
        assert(join_nl(l2.drop_first()) == join_nl(ls.drop_first()) + seq!['\n'] + x);
        assert(join_nl(ls) == ls[0].push('\n') + join_nl(ls.drop_first()));
        assert(ls[0].push('\n') + (join_nl(ls.drop_first()) + seq!['\n'] + x) =~= (ls[0].push(
            '\n',
        ) + join_nl(ls.drop_first())) + seq!['\n'] + x);
    }
}

/// Appends the characters of `v` to `out`.
fn append_chars(out: &mut Vec<char>, v: &Vec<char>)
    ensures
        final(out)@ == old(out)@ + v@,
{
    let n = v.len();
    let mut j: usize = 0;
    while j < n
        invariant
            n == v@.len(),
            j <= n,
            out@ == old(out)@ + v@.subrange(0, j as int),
        decreases n - j,
    {
        out.push(v[j]);
        j = j + 1;
        proof {
            assert(old(out)@ + v@.subrange(0, j - 1) + seq![v@[j - 1]] =~= old(out)@ + v@.subrange(
                0,
                j as int,
            ));
        }
    }
    proof {
        assert(old(out)@ + v@.subrange(0, n as int) =~= old(out)@ + v@);
    }
}

/// The given lines rejoined with line feeds.
fn join_lines(ls: &Vec<Vec<char>>) -> (out: Vec<char>)
    ensures
        out@ == join_nl(ls.deep_view()),
{
    let n = ls.len();
    let mut out: Vec<char> = Vec::new();
    let mut i: usize = 0;
    proof {
        assert(ls.deep_view().subrange(0, 0) =~= Seq::<Seq<char>>::empty());
        assert(ls.deep_view().len() == n);
    }
    while i < n
        invariant
            n == ls@.len(),
            ls.deep_view().len() == n,
            i <= n,
            out@ == join_nl(ls.deep_view().subrange(0, i as int)),
        decreases n - i,
    {
        let ghost prefix = ls.deep_view().subrange(0, i as int);
        if i > 0 {
            out.push('\n');
        }
        append_chars(&mut out, &ls[i]);
        proof {
            assert(ls.deep_view()[i as int] == ls@[i as int]@);
            lemma_join_push(prefix, ls.deep_view()[i as int]);
            assert(ls.deep_view().subrange(0, i as int + 1) =~= prefix.push(
                ls.deep_view()[i as int],
            ));
            if i > 0 {
                assert(join_nl(prefix) + seq!['\n'] + ls@[i as int]@ =~= join_nl(prefix).push(
                    '\n',
                ) + ls@[i as int]@);
            }
        }
        i = i + 1;
    }
    proof {
        assert(ls.deep_view().subrange(0, n as int) =~= ls.deep_view());
    }
    out
}

/// What one line becomes in a pass: an include directive is replaced by
/// the named file's text (`None` if the file set lacks it); any other
/// line stays.
pub open spec fn spec_expand_line(m: FileMap, line: Seq<char>) -> Option<Seq<char>> {
    if line.len() >= 9 && line.subrange(0, 9) == include_prefix() {
        m.spec_get(line.subrange(9, line.len() as int))
    } else {
        Some(line)
    }
}

/// All lines expanded, or `None` if any include is missing.
pub open spec fn spec_expand_lines(m: FileMap, ls: Seq<Seq<char>>) -> Option<Seq<Seq<char>>>
    decreases ls.len(),
{
    if ls.len() == 0 {
        Some(Seq::empty())
    } else {
        match spec_expand_line(m, ls[0]) {
            Option::None => None,
            Option::Some(x) => match spec_expand_lines(m, ls.drop_first()) {
                Option::None => None,
                Option::Some(r) => Some(seq![x] + r),
            },
        }
    }
}

/// One whole pass over `s`: split into lines, expand each, rejoin.
pub open spec fn spec_expand_pass(m: FileMap, s: Seq<char>) -> Option<Seq<char>> {
    match spec_expand_lines(m, spec_lines(s)) {
        Option::None => None,
        Option::Some(ls) => Some(join_nl(ls)),
    }
}

/// `n` rounds of the preprocessor: each round runs a pass if the text
/// still holds the keyword, and otherwise leaves it unchanged. `None`
/// means a missing include stopped a round.
pub open spec fn spec_iterate(m: FileMap, s: Seq<char>, n: nat) -> Option<Seq<char>>
    decreases n,
{
    if n == 0 {
        Some(s)
    } else {
        match spec_iterate(m, s, (n - 1) as nat) {
            Option::None => None,
            Option::Some(t) => if has_include(t) {
                spec_expand_pass(m, t)
            } else {
                Some(t)
            },
        }
    }
}

proof fn lemma_expand_push(m: FileMap, ls: Seq<Seq<char>>, x: Seq<char>)
    ensures
        spec_expand_lines(m, ls.push(x)) == match (spec_expand_lines(m, ls), spec_expand_line(
            m,
            x,
        )) {
            (Option::Some(r), Option::Some(y)) => Some(r.push(y)),
            _ => None::<Seq<Seq<char>>>,
        },
    decreases ls.len(),
{
    let l2 = ls.push(x);
    if ls.len() == 0 {
        assert(l2[0] == x);
        assert(l2.drop_first() =~= Seq::<Seq<char>>::empty());
        if spec_expand_line(m, x) is Some {
            let y = spec_expand_line(m, x)->Some_0;
            assert(seq![y] + Seq::<Seq<char>>::empty() =~= Seq::<Seq<char>>::empty().push(y));
        }
    } else {
        lemma_expand_push(m, ls.drop_first(), x);
        assert(l2[0] == ls[0]);
        assert(l2.drop_first() =~= ls.drop_first().push(x));
        match (spec_expand_line(m, ls[0]), spec_expand_lines(m, ls.drop_first()), spec_expand_line(
            m,
            x,
        )) {
            (Option::Some(h), Option::Some(r), Option::Some(y)) => {
                assert(spec_expand_lines(m, l2.drop_first()) == Some(r.push(y)));
                assert(seq![h] + r.push(y) =~= (seq![h] + r).push(y));
            },
            _ => {},
        }
    }
}

/// A failing prefix makes the whole expansion fail.
proof fn lemma_expand_prefix_none(m: FileMap, ls: Seq<Seq<char>>, k: int)
    requires
        0 <= k <= ls.len(),
        spec_expand_lines(m, ls.subrange(0, k)) is None,
    ensures
        spec_expand_lines(m, ls) is None,
    decreases k,
{
    let p = ls.subrange(0, k);
    if k == 0 {
        assert(p.len() == 0);
        assert(spec_expand_lines(m, p) is Some);
    } else {
        assert(p[0] == ls[0]);
        match spec_expand_line(m, ls[0]) {
            Option::None => {},
            Option::Some(x) => {
                assert(p.drop_first() =~= ls.drop_first().subrange(0, k - 1));
                assert(spec_expand_lines(m, p.drop_first()) is None);
                lemma_expand_prefix_none(m, ls.drop_first(), k - 1);
            },
        }
    }
}

/// If `name` holds the file name of an include directive of `line`,
/// the line is one and `name` is what it includes.
fn line_filename(line: &Vec<char>) -> (r: Option<Vec<char>>)
    ensures
        match r {
            Some(f) => line@.len() >= 9 && line@.subrange(0, 9) == include_prefix() && f@ == line@
                .subrange(9, line@.len() as int),
            None => !(line@.len() >= 9 && line@.subrange(0, 9) == include_prefix()),
        },
{
    let n = line.len();
    if n < 9 {
        return None;
    }
    let is_directive = line[0] == '#' && line[1] == 'i' && line[2] == 'n' && line[3] == 'c'
        && line[4] == 'l' && line[5] == 'u' && line[6] == 'd' && line[7] == 'e' && line[8] == ' ';
    proof {
        let sub = line@.subrange(0, 9);
        if is_directive {
            assert(sub =~= include_prefix());
        } else {
            if sub == include_prefix() {
                assert(line@[0] == sub[0] && line@[1] == sub[1] && line@[2] == sub[2] && line@[3]
                    == sub[3] && line@[4] == sub[4] && line@[5] == sub[5] && line@[6] == sub[6]
                    && line@[7] == sub[7] && line@[8] == sub[8]);
                assert(false);
            }
        }
    }
    if !is_directive {
        return None;
    }
    let mut f: Vec<char> = Vec::new();
    let mut j: usize = 9;
    while j < n
        invariant
            n == line@.len(),
            9 <= j <= n,
            f@ == line@.subrange(9, j as int),
        decreases n - j,
    {
        f.push(line[j]);
        j = j + 1;
        proof {
            assert(f@ =~= line@.subrange(9, j as int));
        }
    }
    Some(f)
}

/// One pass over the given lines; fails on the first missing include.
fn expand_lines(files: &FileMap, ls: &Vec<Vec<char>>) -> (r: Result<
    Vec<Vec<char>>,
    PreprocessError,
>)
    ensures
        match r {
            Ok(out) => spec_expand_lines(*files, ls.deep_view()) == Some(out.deep_view()),
            Err(e) => spec_expand_lines(*files, ls.deep_view()) is None && e
                == PreprocessError::MissingInclude,
        },
{
    let n = ls.len();
    let mut out: Vec<Vec<char>> = Vec::new();
    let mut i: usize = 0;
    proof {
        assert(ls.deep_view().len() == n);
        assert(ls.deep_view().subrange(0, 0) =~= Seq::<Seq<char>>::empty());
        assert(out.deep_view() =~= Seq::<Seq<char>>::empty());
    }
    while i < n
        invariant
            n == ls@.len(),
            ls.deep_view().len() == n,
            i <= n,
            spec_expand_lines(*files, ls.deep_view().subrange(0, i as int)) == Some(
                out.deep_view(),
            ),
        decreases n - i,
    {
        let ghost prefix = ls.deep_view().subrange(0, i as int);
        let ghost out0 = out.deep_view();
        proof {
            assert(ls.deep_view()[i as int] == ls@[i as int]@);
            lemma_expand_push(*files, prefix, ls.deep_view()[i as int]);
            assert(ls.deep_view().subrange(0, i as int + 1) =~= prefix.push(
                ls.deep_view()[i as int],
            ));
        }
        match line_filename(&ls[i]) {
            Option::Some(f) => {
                match files.get(&f) {
                    Option::Some(text) => {
                        out.push(copy_chars(text));
                        proof {
                            assert(out.deep_view() =~~= out0.push(text@));
                        }
                    },
                    Option::None => {
                        proof {
                            assert(spec_expand_line(*files, ls.deep_view()[i as int]) is None);
                            assert(spec_expand_lines(
                                *files,
                                ls.deep_view().subrange(0, i as int + 1),
                            ) is None);
                            lemma_expand_prefix_none(*files, ls.deep_view(), i as int + 1);
                        }
                        return Err(PreprocessError::MissingInclude);
                    },
                }
            },
            Option::None => {
                out.push(copy_chars(&ls[i]));
                proof {
                    assert(spec_expand_line(*files, ls.deep_view()[i as int]) == Some(
                        ls.deep_view()[i as int],
                    ));
                    assert(out.deep_view() =~~= out0.push(ls.deep_view()[i as int]));
                }
            },
        }
        i = i + 1;
    }
    proof {
        assert(ls.deep_view().subrange(0, n as int) =~= ls.deep_view());
    }
    Ok(out)
}

/// One whole pass over `text`.
fn expand_pass(files: &FileMap, text: &Vec<char>) -> (r: Result<Vec<char>, PreprocessError>)
    ensures
        match r {
            Ok(t) => spec_expand_pass(*files, text@) == Some(t@),
            Err(e) => spec_expand_pass(*files, text@) is None && e
                == PreprocessError::MissingInclude,
        },
{
    let ls = split_lines(text);
    match expand_lines(files, &ls) {
        Ok(expanded) => Ok(join_lines(&expanded)),
        Err(e) => Err(e),
    }
}

/// What running the passes on `start` against `m` may return: the first
/// include-free text the rounds reach; the missing-include error exactly
/// when a round stops on one; the cyclic-include error only when the
/// keyword survives at least as many passes as `m` has entries, which no
/// acyclic include chain over `m` can cause.
pub open spec fn preprocess_result(
    m: FileMap,
    start: Seq<char>,
    r: Result<String, PreprocessError>,
) -> bool {
    match r {
        Ok(out) => !has_include(out@) && exists|n: nat| spec_iterate(m, start, n) == Some(out@),
        Err(e) => match e {
            PreprocessError::MissingInclude => exists|n: nat| spec_iterate(m, start, n) is None,
            PreprocessError::CyclicInclude => exists|n: nat|
                n >= m.spec_len() && (match #[trigger] spec_iterate(m, start, n) {
                    Option::Some(t) => has_include(t),
                    Option::None => false,
                }),
            PreprocessError::FileNotPresent => false,
        },
    }
}

/// Runs passes over `start` until no include keyword is left, stopping
/// on a missing include or once a cycle is certain.
fn preprocess_chars(files: &FileMap, start: &Vec<char>) -> (r: Result<String, PreprocessError>)
    ensures
        preprocess_result(*files, start@, r),
{
    let ghost start0 = start@;
    let mut text = copy_chars(start);
    let ghost mut rounds: nat = 0;
    let len = files.len();
    let cap = if len < usize::MAX {
        len + 1
    } else {
        usize::MAX
    };
    let mut i: usize = 0;
    while find_include(&text)
        invariant
            start0 == start@,
            len == files.spec_len(),
            cap == if len < usize::MAX {
                len + 1
            } else {
                usize::MAX as int
            },
            i <= cap,
            i == rounds,
            spec_iterate(*files, start0, rounds) == Some(text@),
        decreases cap - i,
    {
        if i == cap {
            return Err(PreprocessError::CyclicInclude);
        }
        match expand_pass(files, &text) {
            Ok(t) => {
                proof {
                    rounds = rounds + 1;
                }
                text = t;
                i = i + 1;
            },
            Err(e) => {
                proof {
                    assert(spec_iterate(*files, start0, rounds + 1) is None);
                }
                return Err(e);
            },
        }
    }
    Ok(string_from_chars(&text))
}

/// Law: once the rounds reach an include-free text, every later round
/// returns that same text; the passes have a fixed point.
pub proof fn lemma_iterate_stabilizes(m: FileMap, s: Seq<char>, n: nat, k: nat)
    requires
        n <= k,
        match spec_iterate(m, s, n) {
            Option::Some(t) => !has_include(t),
            Option::None => false,
        },
    ensures
        spec_iterate(m, s, k) == spec_iterate(m, s, n),
    decreases k - n,
{
    if k > n {
        lemma_iterate_stabilizes(m, s, n, (k - 1) as nat);
    }
}

/// Law: the include-free text the rounds reach is unique, whatever
/// round reaches it: preprocessing has exactly one possible output on
/// an input it succeeds on.
pub proof fn lemma_preprocess_deterministic(m: FileMap, s: Seq<char>, n1: nat, n2: nat)
    requires
        match spec_iterate(m, s, n1) {
            Option::Some(t) => !has_include(t),
            Option::None => false,
        },
        match spec_iterate(m, s, n2) {
            Option::Some(t) => !has_include(t),
            Option::None => false,
        },
    ensures
        spec_iterate(m, s, n1) == spec_iterate(m, s, n2),
{
    if n1 <= n2 {
        lemma_iterate_stabilizes(m, s, n1, n2);
    } else {
        lemma_iterate_stabilizes(m, s, n2, n1);
    }
}

/// Law: a text in which the keyword never occurs is returned unchanged,
/// and preprocessing it cannot fail.
pub proof fn lemma_preprocess_identity(
    m: FileMap,
    s: Seq<char>,
    r: Result<String, PreprocessError>,
)
    requires
        !has_include(s),
        preprocess_result(m, s, r),
    ensures
        match r {
            Ok(out) => out@ == s,
            Err(_) => false,
        },
{
    match r {
        Ok(out) => {
            let n = choose|n: nat| spec_iterate(m, s, n) == Some(out@);
            lemma_iterate_stabilizes(m, s, 0, n);
        },
        Err(e) => match e {
            PreprocessError::MissingInclude => {
                let n = choose|n: nat| spec_iterate(m, s, n) is None;
                lemma_iterate_stabilizes(m, s, 0, n);
            },
            PreprocessError::CyclicInclude => {
                let n = choose|n: nat|
                    n >= m.spec_len() && (match #[trigger] spec_iterate(m, s, n) {
                        Option::Some(t) => has_include(t),
                        Option::None => false,
                    });
                lemma_iterate_stabilizes(m, s, 0, n);
            },
            PreprocessError::FileNotPresent => {},
        },
    }
}

/// Preprocesses the text `current_file` against the file set `files`,
/// replacing include lines until none is left.
pub fn preprocess(files: &FileMap, current_file: &str) -> (r: Result<String, PreprocessError>)
    ensures
        preprocess_result(*files, current_file@, r),
{
    preprocess_chars(files, &char_vec_from_str(current_file))
}

/// A helper that wraps [`preprocess`] with the file set to use.
pub struct Preprocessor {
    files: FileMap,
}

impl Preprocessor {
    /// The wrapped file set.
    pub closed spec fn spec_files(self) -> FileMap {
        self.files
    }

    /// Wraps the given file set.
    pub fn from_files(files: FileMap) -> (r: Preprocessor)
        ensures
            r.spec_files() == files,
    {
        Preprocessor { files }
    }

    /// Runs [`preprocess`] on the file stored under `filename`, which
    /// must be within the files that initialized this preprocessor.
    pub fn preprocess(&self, filename: &str) -> (r: Result<String, PreprocessError>)
        ensures
            match self.spec_files().spec_get(filename@) {
                Option::None => r == Err::<String, PreprocessError>(
                    PreprocessError::FileNotPresent,
                ),
                Option::Some(start) => preprocess_result(self.spec_files(), start, r),
            },
    {
        let name = char_vec_from_str(filename);
        match self.files.get(&name) {
            Option::None => Err(PreprocessError::FileNotPresent),
            Option::Some(text) => preprocess_chars(&self.files, text),
        }
    }
}

} // verus!
