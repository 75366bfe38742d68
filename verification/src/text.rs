//! Verified text algorithms: joining words, splitting text into lines, and
//! leftmost non-overlapping substring replacement, together with the one
//! trusted view of `str::trim`.

use vstd::prelude::*;

verus! {

use vstd::string::*;

/// The characters of `s` with leading and trailing whitespace removed, as
/// `str::trim` computes it.
pub uninterp spec fn trimmed(s: Seq<char>) -> Seq<char>;

/// Relies on `str::trim`: returns the argument with leading and trailing
/// whitespace removed; the result depends on the characters alone.
#[verifier::external_body]
pub fn trim_str<'a>(s: &'a str) -> (r: &'a str)
    ensures
        r@ == trimmed(s@),
{
    s.trim()
}

/// `words` joined with `sep` between consecutive words, as `[T]::join`
/// computes it.
pub open spec fn spec_join(words: Seq<Seq<char>>, sep: Seq<char>) -> Seq<char>
    decreases words.len(),
{
    if words.len() == 0 {
        Seq::empty()
    } else if words.len() == 1 {
        words[0]
    } else {
        spec_join(words.drop_last(), sep) + sep + words.last()
    }
}

/// Joins `words` with `sep` between consecutive words.
pub fn join_words(words: &Vec<String>, sep: &str) -> (r: String)
    ensures
        r@ == spec_join(words.deep_view(), sep@),
{
    let ghost dv = words.deep_view();
    let mut r = String::new();
    let n = words.len();
    let mut i: usize = 0;
    while i < n
        invariant
            dv == words.deep_view(),
            n == words.len(),
            i <= n,
            r@ == spec_join(dv.take(i as int), sep@),
        decreases n - i,
    {
        if i > 0 {
            r.append(sep);
        }
        r.append(words[i].as_str());
        proof {
            assert(dv.take(i + 1).drop_last() =~= dv.take(i as int));
            if i == 0 {
                assert(r@ =~= spec_join(dv.take(1), sep@));
            } else {
                assert(r@ =~= spec_join(dv.take(i + 1), sep@));
            }
        }
        i = i + 1;
    }
    proof {
        assert(dv.take(n as int) =~= dv);
    }
    r
}

/// The index of the first `'\n'` in `s`, or `s.len()` if there is none.
pub open spec fn newline_index(s: Seq<char>) -> nat
    decreases s.len(),
{
    if s.len() == 0 {
        0
    } else if s[0] == '\n' {
        0
    } else {
        1 + newline_index(s.skip(1))
    }
}

/// If no newline stands before `j` and `j` is a newline or the end, then
/// `j` is the first newline index.
pub proof fn lemma_newline_index_is(s: Seq<char>, j: int)
    requires
        0 <= j <= s.len(),
        forall|k: int| 0 <= k < j ==> s[k] != '\n',
        j < s.len() ==> s[j] == '\n',
    ensures
        newline_index(s) == j,
    decreases s.len(),
{
    if s.len() != 0 && s[0] != '\n' {
        assert forall|k: int| 0 <= k < j - 1 implies s.skip(1)[k] != '\n' by {
            assert(s.skip(1)[k] == s[k + 1]);
        }
        lemma_newline_index_is(s.skip(1), j - 1);
    }
}

/// A line with a trailing carriage return stripped, as `str::lines` yields
/// a newline-terminated line.
pub open spec fn strip_cr(l: Seq<char>) -> Seq<char> {
    if l.len() > 0 && l[l.len() - 1] == '\r' {
        l.drop_last()
    } else {
        l
    }
}

/// The lines of `s`, as `str::lines` computes them: split on `'\n'`, with
/// a `'\r'` removed only right before a `'\n'`, and with no empty final
/// line after a trailing newline.  A final line without a terminating
/// newline keeps a trailing `'\r'`.
pub open spec fn spec_lines(s: Seq<char>) -> Seq<Seq<char>>
    decreases s.len(),
{
    if s.len() == 0 {
        Seq::empty()
    } else {
        let j = newline_index(s);
        if j < s.len() {
            seq![strip_cr(s.take(j as int))] + spec_lines(s.skip(j as int + 1))
        } else {
            seq![s]
        }
    }
}

/// Finds the index of the first `'\n'` at or after `start`, or `n` if
/// there is none.
fn find_newline(content: &str, start: usize, n: usize) -> (j: usize)
    requires
        n == content@.len(),
        start <= n,
    ensures
        start <= j <= n,
        forall|k: int| start <= k < j ==> content@[k] != '\n',
        j < n ==> content@[j as int] == '\n',
{
    let mut j: usize = start;
    while j < n
        invariant_except_break
            n == content@.len(),
            start <= j <= n,
            forall|k: int| start <= k < j ==> content@[k] != '\n',
        ensures
            start <= j <= n,
            forall|k: int| start <= k < j ==> content@[k] != '\n',
            j < n ==> content@[j as int] == '\n',
        decreases n - j,
    {
        if content.get_char(j) == '\n' {
            break;
        }
        j = j + 1;
    }
    j
}

/// Splits `content` into its lines, as `str::lines` does.
pub fn split_lines(content: &str) -> (r: Vec<String>)
    ensures
        r.deep_view() == spec_lines(content@),
{
    let n = content.unicode_len();
    let mut r: Vec<String> = Vec::new();
    let mut pos: usize = 0;
    proof {
        assert(r.deep_view() =~= Seq::<Seq<char>>::empty());
        assert(content@.skip(0) =~= content@);
    }
    while pos < n
        invariant
            n == content@.len(),
            pos <= n,
            spec_lines(content@) == r.deep_view() + spec_lines(content@.skip(pos as int)),
        decreases n - pos,
    {
        let ghost rest = content@.skip(pos as int);
        let ghost old_r = r.deep_view();
        let j = find_newline(content, pos, n);
        proof {
            assert forall|k: int| 0 <= k < j - pos implies rest[k] != '\n' by {
                assert(rest[k] == content@[pos + k]);
            }
            if j < n {
                assert(rest[j - pos] == content@[j as int]);
            }
            lemma_newline_index_is(rest, j - pos);
        }
        let line_end: usize = if j < n && j > pos && content.get_char(j - 1) == '\r' {
            j - 1
        } else {
            j
        };
        let line = content.substring_char(pos, line_end);
        r.push(line.to_owned());
        proof {
            let line_view = content@.subrange(pos as int, line_end as int);
            assert(r.deep_view() =~= old_r.push(line_view));
            if j < n {
                assert(rest.take(j - pos) =~= content@.subrange(pos as int, j as int));
                assert(strip_cr(rest.take(j - pos)) =~= line_view);
                assert(rest.skip(j - pos + 1) =~= content@.skip(j as int + 1));
                assert(spec_lines(rest) == seq![strip_cr(rest.take(j - pos))] + spec_lines(
                    rest.skip(j - pos + 1),
                ));
                assert(spec_lines(content@) =~= r.deep_view() + spec_lines(
                    content@.skip(j as int + 1),
                ));
            } else {
                assert(newline_index(rest) == rest.len());
                assert(rest =~= content@.subrange(pos as int, j as int));
                assert(rest =~= line_view);
                assert(spec_lines(rest) == seq![rest]);
                assert(content@.skip(n as int) =~= Seq::<char>::empty());
                assert(spec_lines(content@) =~= r.deep_view() + spec_lines(
                    content@.skip(n as int),
                ));
            }
        }
        pos = if j < n {
            j + 1
        } else {
            n
        };
    }
    proof {
        assert(content@.skip(n as int) =~= Seq::<char>::empty());
        assert(r.deep_view() =~= spec_lines(content@));
    }
    r
}

/// `s` with every leftmost, non-overlapping occurrence of `pat` replaced by
/// `to`, as `str::replace` computes it for a non-empty pattern.
pub open spec fn spec_replace(s: Seq<char>, pat: Seq<char>, to: Seq<char>) -> Seq<char>
    decreases s.len(),
{
    if pat.len() == 0 || s.len() < pat.len() {
        s
    } else if s.take(pat.len() as int) == pat {
        to + spec_replace(s.skip(pat.len() as int), pat, to)
    } else {
        seq![s[0]] + spec_replace(s.skip(1), pat, to)
    }
}

/// Whether `pat` occurs in `s` starting at character index `i`.
fn matches_at(s: &str, i: usize, pat: &str) -> (b: bool)
    requires
        i + pat@.len() <= s@.len() <= usize::MAX,
    ensures
        b == (s@.subrange(i as int, i + pat@.len()) == pat@),
{
    let m = pat.unicode_len();
    let mut j: usize = 0;
    while j < m
        invariant
            m == pat@.len(),
            i + m <= s@.len() <= usize::MAX,
            j <= m,
            forall|k: int| 0 <= k < j ==> s@[i + k] == pat@[k],
        decreases m - j,
    {
        if s.get_char(i + j) != pat.get_char(j) {
            proof {
                assert(s@.subrange(i as int, i + m)[j as int] == s@[i + j]);
            }
            return false;
        }
        j = j + 1;
    }
    proof {
        assert(s@.subrange(i as int, i + m) =~= pat@);
    }
    true
}

/// Replaces every leftmost, non-overlapping occurrence of `pat` in `s` with
/// `to`, as `str::replace` does.
pub fn replace_all(s: &str, pat: &str, to: &str) -> (r: String)
    requires
        pat@.len() > 0,
    ensures
        r@ == spec_replace(s@, pat@, to@),
{
    let n = s.unicode_len();
    let m = pat.unicode_len();
    let mut r = String::new();
    let mut i: usize = 0;
    proof {
        assert(s@.skip(0) =~= s@);
        assert(r@ + spec_replace(s@, pat@, to@) =~= spec_replace(s@, pat@, to@));
    }
    while i < n
        invariant
            n == s@.len(),
            m == pat@.len(),
            m > 0,
            i <= n,
            spec_replace(s@, pat@, to@) == r@ + spec_replace(s@.skip(i as int), pat@, to@),
        decreases n - i,
    {
        let ghost rest = s@.skip(i as int);
        if m <= n - i && matches_at(s, i, pat) {
            proof {
                assert(rest.take(m as int) =~= s@.subrange(i as int, i + m));
                assert(rest.skip(m as int) =~= s@.skip(i + m));
            }
            r.append(to);
            i = i + m;
        } else {
            proof {
                if m <= n - i {
                    assert(rest.take(m as int) =~= s@.subrange(i as int, i + m));
                }
                assert(rest.skip(1) =~= s@.skip(i + 1));
                assert(seq![rest[0]] =~= s@.subrange(i as int, i + 1));
            }
            let c = s.substring_char(i, i + 1);
            r.append(c);
            i = i + 1;
        }
    }
    proof {
        assert(s@.skip(n as int) =~= Seq::<char>::empty());
    }
    r
}

} // verus!
