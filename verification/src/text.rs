//! Verified text utilities shared by the catalogue parser and the
//! classification layer: character-exact string comparison, whitespace
//! trimming and line splitting, specified over `Seq<char>` views.

use vstd::prelude::*;
use vstd::string::StrSliceExecFns;

verus! {

/// The views of a sequence of owned strings.
pub open spec fn seq_views(ss: Seq<String>) -> Seq<Seq<char>> {
    ss.map_values(|s: String| s@)
}

/// Character-exact equality of two string slices, decided on their views.
pub fn str_eq(a: &str, b: &str) -> (r: bool)
    ensures
        r == (a@ == b@),
{
    let n = a.unicode_len();
    if n != b.unicode_len() {
        return false;
    }
    let mut i: usize = 0;
    while i < n
        invariant
            n == a@.len(),
            n == b@.len(),
            i <= n,
            forall|j: int| 0 <= j < i ==> a@[j] == b@[j],
        decreases n - i,
    {
        if a.get_char(i) != b.get_char(i) {
            return false;
        }
        i = i + 1;
    }
    proof {
        assert(a@ =~= b@);
    }
    true
}

/// Whether one of the strings in `list` has exactly the view of `s`.
pub fn contains_str(list: &Vec<String>, s: &str) -> (r: bool)
    ensures
        r == seq_views(list@).contains(s@),
{
    let mut i: usize = 0;
    while i < list.len()
        invariant
            i <= list@.len(),
            forall|j: int| 0 <= j < i ==> (#[trigger] list@[j])@ != s@,
        decreases list@.len() - i,
    {
        if str_eq(list[i].as_str(), s) {
            proof {
                assert(seq_views(list@)[i as int] == s@);
            }
            return true;
        }
        i = i + 1;
    }
    proof {
        assert(forall|j: int| 0 <= j < seq_views(list@).len() ==> #[trigger] seq_views(list@)[j]
            != s@);
    }
    false
}

/// Copies a list of strings, preserving order and contents.
pub fn clone_strings(v: &Vec<String>) -> (r: Vec<String>)
    ensures
        r@ == v@,
{
    let mut r: Vec<String> = Vec::new();
    let mut i: usize = 0;
    while i < v.len()
        invariant
            i <= v@.len(),
            r@ == v@.take(i as int),
        decreases v@.len() - i,
    {
        r.push(v[i].clone());
        proof {
            assert(v@.take(i as int).push(v@[i as int]) =~= v@.take(i as int + 1));
        }
        i = i + 1;
    }
    proof {
        assert(v@.take(v@.len() as int) =~= v@);
    }
    r
}

/// The whitespace characters stripped from catalogue lines: the ASCII
/// spacing characters.
pub open spec fn is_space_char(c: char) -> bool {
    c == ' ' || c == '\t' || c == '\n' || c == '\r' || c == '\u{b}' || c == '\u{c}'
}

pub fn is_space(c: char) -> (r: bool)
    ensures
        r == is_space_char(c),
{
    c == ' ' || c == '\t' || c == '\n' || c == '\r' || c == '\u{b}' || c == '\u{c}'
}

/// `s` with its leading whitespace removed.
pub open spec fn trim_front(s: Seq<char>) -> Seq<char>
    decreases s.len(),
{
    if s.len() > 0 && is_space_char(s[0]) {
        trim_front(s.drop_first())
    } else {
        s
    }
}

/// `s` with its trailing whitespace removed.
pub open spec fn trim_back(s: Seq<char>) -> Seq<char>
    decreases s.len(),
{
    if s.len() > 0 && is_space_char(s.last()) {
        trim_back(s.drop_last())
    } else {
        s
    }
}

/// `s` with surrounding whitespace removed.
pub open spec fn trim_spec(s: Seq<char>) -> Seq<char> {
    trim_back(trim_front(s))
}

/// A sequence that neither starts nor ends with whitespace trims to itself.
pub proof fn lemma_trim_id(s: Seq<char>)
    requires
        s.len() > 0,
        !is_space_char(s[0]),
        !is_space_char(s.last()),
    ensures
        trim_spec(s) == s,
{
}

/// Strips surrounding whitespace, as the catalogue parser does to each line.
pub fn trim_str(s: &str) -> (r: String)
    ensures
        r@ == trim_spec(s@),
{
    let n = s.unicode_len();
    proof {
        assert(s@.skip(0) =~= s@);
    }
    let mut a: usize = 0;
    while a < n && is_space(s.get_char(a))
        invariant
            n == s@.len(),
            a <= n,
            trim_front(s@) == trim_front(s@.skip(a as int)),
        decreases n - a,
    {
        proof {
            assert(s@.skip(a as int).drop_first() =~= s@.skip(a as int + 1));
        }
        a = a + 1;
    }
    proof {
        if a < n {
            assert(s@.skip(a as int)[0] == s@[a as int]);
        }
        assert(trim_front(s@) =~= s@.subrange(a as int, n as int));
    }
    let mut b: usize = n;
    while b > a && is_space(s.get_char(b - 1))
        invariant
            n == s@.len(),
            a <= b <= n,
            trim_back(s@.subrange(a as int, n as int)) == trim_back(
                s@.subrange(a as int, b as int),
            ),
        decreases b,
    {
        proof {
            assert(s@.subrange(a as int, b as int).last() == s@[b - 1]);
            assert(s@.subrange(a as int, b as int).drop_last() =~= s@.subrange(
                a as int,
                b as int - 1,
            ));
        }
        b = b - 1;
    }
    proof {
        if b > a {
            assert(s@.subrange(a as int, b as int).last() == s@[b - 1]);
        }
        assert(trim_spec(s@) =~= s@.subrange(a as int, b as int));
    }
    s.substring_char(a, b).to_owned()
}

/// The lines of `s`, split at every newline character.  Splitting keeps
/// empty pieces, so a text of `k` newlines has `k + 1` lines.
pub open spec fn split_lines_spec(s: Seq<char>) -> Seq<Seq<char>>
    decreases s.len(),
{
    if s.len() == 0 {
        seq![Seq::<char>::empty()]
    } else if s[0] == '\n' {
        seq![Seq::<char>::empty()] + split_lines_spec(s.drop_first())
    } else {
        let rest = split_lines_spec(s.drop_first());
        seq![seq![s[0]] + rest[0]] + rest.drop_first()
    }
}

/// A text without newlines is a single line.
pub proof fn lemma_split_single(s: Seq<char>)
    requires
        forall|i: int| 0 <= i < s.len() ==> s[i] != '\n',
    ensures
        split_lines_spec(s) == seq![s],
    decreases s.len(),
{
    if s.len() == 0 {
        assert(split_lines_spec(s) =~~= seq![s]);
    } else {
        assert(s[0] != '\n');
        lemma_split_single(s.drop_first());
        let rest = split_lines_spec(s.drop_first());
        assert(split_lines_spec(s) == seq![seq![s[0]] + rest[0]] + rest.drop_first());
        assert(rest == seq![s.drop_first()]);
        assert(seq![s[0]] + rest[0] =~= s);
        assert(rest.drop_first() =~= Seq::<Seq<char>>::empty());
        assert(split_lines_spec(s) =~= seq![s]);
    }
}

/// Splitting at the first newline: the newline-free prefix becomes the
/// first line and the remainder splits on its own.
pub proof fn lemma_split_app(a: Seq<char>, b: Seq<char>)
    requires
        forall|i: int| 0 <= i < a.len() ==> a[i] != '\n',
    ensures
        split_lines_spec(a + seq!['\n'] + b) == seq![a] + split_lines_spec(b),
    decreases a.len(),
{
    let s = a + seq!['\n'] + b;
    if a.len() == 0 {
        assert(s[0] == '\n');
        assert(s.drop_first() =~= b);
        assert(split_lines_spec(s) =~~= seq![a] + split_lines_spec(b));
    } else {
        assert(s[0] == a[0]);
        assert(a[0] != '\n');
        assert(s.drop_first() =~= a.drop_first() + seq!['\n'] + b);
        lemma_split_app(a.drop_first(), b);
        let rest = split_lines_spec(s.drop_first());
        assert(split_lines_spec(s) == seq![seq![s[0]] + rest[0]] + rest.drop_first());
        assert(rest == seq![a.drop_first()] + split_lines_spec(b));
        assert(rest[0] == a.drop_first());
        assert(seq![s[0]] + rest[0] =~= a);
        assert(rest.drop_first() =~= split_lines_spec(b));
        assert(split_lines_spec(s) =~= seq![a] + split_lines_spec(b));
    }
}

/// Splits a text into its lines, one piece per newline boundary.
pub fn split_lines(s: &str) -> (r: Vec<String>)
    ensures
        seq_views(r@) == split_lines_spec(s@),
{
    let n = s.unicode_len();
    let mut r: Vec<String> = Vec::new();
    proof {
        assert(s@.subrange(0, n as int) =~= s@);
        assert(seq_views(r@) + split_lines_spec(s@) =~= split_lines_spec(s@));
    }
    let mut start: usize = 0;
    let mut j: usize = 0;
    while j < n
        invariant
            n == s@.len(),
            start <= j <= n,
            forall|k: int| start <= k < j ==> s@[k] != '\n',
            split_lines_spec(s@) == seq_views(r@) + split_lines_spec(
                s@.subrange(start as int, n as int),
            ),
        decreases n - j,
    {
        if s.get_char(j) == '\n' {
            let line = s.substring_char(start, j).to_owned();
            proof {
                let pre = s@.subrange(start as int, j as int);
                let post = s@.subrange(j as int + 1, n as int);
                assert(s@.subrange(start as int, n as int) =~= pre + seq!['\n'] + post);
                lemma_split_app(pre, post);
                assert(seq_views(r@.push(line)) =~= seq_views(r@).push(line@));
                assert(seq_views(r@).push(pre) + split_lines_spec(post) =~= seq_views(r@) + (seq![
                    pre,
                ] + split_lines_spec(post)));
            }
            r.push(line);
            start = j + 1;
        }
        j = j + 1;
    }
    let line = s.substring_char(start, n).to_owned();
    proof {
        lemma_split_single(s@.subrange(start as int, n as int));
        assert(seq_views(r@.push(line)) =~= seq_views(r@).push(line@));
        assert(seq_views(r@).push(s@.subrange(start as int, n as int)) =~= seq_views(r@) + seq![
            s@.subrange(start as int, n as int),
        ]);
    }
    r.push(line);
    r
}

} // verus!
