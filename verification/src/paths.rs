//! The path-suffix rule used for extension filtering.
//!
//! A path's extension is the part of its final component after the last
//! dot, provided that dot is neither the component's first character nor
//! absent.  `a/b.mkv` has extension `mkv`; `a/.hidden`, `plain` and
//! `dir.d/file` have none.  Both slash and backslash separate components.

use vstd::prelude::*;
use vstd::string::StrSliceExecFns;

verus! {

/// Whether a character separates path components.
pub open spec fn is_separator(c: char) -> bool {
    c == '/' || c == '\\'
}

/// The index of the last path separator in `s`, or -1 when there is none.
pub open spec fn last_sep_index(s: Seq<char>) -> int
    decreases s.len(),
{
    if s.len() == 0 {
        -1
    } else if is_separator(s.last()) {
        s.len() - 1
    } else {
        last_sep_index(s.drop_last())
    }
}

/// The index of the last dot in `s`, or -1 when there is none.
pub open spec fn last_dot_index(s: Seq<char>) -> int
    decreases s.len(),
{
    if s.len() == 0 {
        -1
    } else if s.last() == '.' {
        s.len() - 1
    } else {
        last_dot_index(s.drop_last())
    }
}

/// The extension of a path under the library's path-suffix rule, or
/// `None` when the final component has no dot past its first character.
pub open spec fn extension_of(path: Seq<char>) -> Option<Seq<char>> {
    if last_dot_index(path) > last_sep_index(path) + 1 {
        Some(path.subrange(last_dot_index(path) + 1, path.len() as int))
    } else {
        None
    }
}

/// The view of an optional owned string.
pub open spec fn opt_view(o: Option<String>) -> Option<Seq<char>> {
    match o {
        Some(s) => Some(s@),
        None => None,
    }
}

/// The extension of `path`, under the library's path-suffix rule.
pub fn get_extension(path: &str) -> (r: Option<String>)
    ensures
        opt_view(r) == extension_of(path@),
{
    let n = path.unicode_len();
    let mut i: usize = 0;
    let mut sep_plus: usize = 0;
    let mut dot_plus: usize = 0;
    proof {
        assert(path@.take(0) =~= Seq::<char>::empty());
    }
    while i < n
        invariant
            n == path@.len(),
            i <= n,
            sep_plus <= i,
            dot_plus <= i,
            sep_plus as int == last_sep_index(path@.take(i as int)) + 1,
            dot_plus as int == last_dot_index(path@.take(i as int)) + 1,
        decreases n - i,
    {
        let c = path.get_char(i);
        proof {
            assert(path@.take(i as int + 1).drop_last() =~= path@.take(i as int));
            assert(path@.take(i as int + 1).last() == path@[i as int]);
        }
        if c == '/' || c == '\\' {
            sep_plus = i + 1;
        }
        if c == '.' {
            dot_plus = i + 1;
        }
        i = i + 1;
    }
    proof {
        assert(path@.take(n as int) =~= path@);
    }
    if dot_plus > sep_plus && dot_plus - sep_plus >= 2 {
        Some(path.substring_char(dot_plus, n).to_owned())
    } else {
        None
    }
}

} // verus!
