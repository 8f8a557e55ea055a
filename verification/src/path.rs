//! The extension of a local file path, as `Path::extension` finds it on Unix.
use vstd::prelude::*;

use crate::text::{chars_of, slice_range, string_from_chars};

verus! {

/// `p` without trailing `/` separators and trailing `/.` components.
pub open spec fn strip_trailing(p: Seq<char>) -> Seq<char>
    decreases p.len(),
{
    if p.len() > 0 && p.last() == '/' {
        strip_trailing(p.drop_last())
    } else if p.len() >= 2 && p.last() == '.' && p[p.len() - 2] == '/' {
        strip_trailing(p.drop_last())
    } else {
        p
    }
}

/// The index of the last `c` among `s[..j]`, or -1.
pub open spec fn last_index_before(s: Seq<char>, c: char, j: int) -> int
    decreases j,
{
    if j <= 0 || j > s.len() {
        -1
    } else if s[j - 1] == c {
        j - 1
    } else {
        last_index_before(s, c, j - 1)
    }
}

/// The last component of a path, if it is a file name: `None` for an empty
/// path, the root, `.` and `..`.
pub open spec fn file_name_of(p: Seq<char>) -> Option<Seq<char>> {
    let q = strip_trailing(p);
    let n = q.skip(last_index_before(q, '/', q.len() as int) + 1);
    if n.len() == 0 || n == seq!['.'] || n == seq!['.', '.'] {
        None
    } else {
        Some(n)
    }
}

/// The extension of a path: what follows the last `.` of its file name;
/// `None` without a file name, without a `.`, or when the only `.` starts the name.
pub open spec fn extension_of(p: Seq<char>) -> Option<Seq<char>> {
    match file_name_of(p) {
        Some(n) => {
            let d = last_index_before(n, '.', n.len() as int);
            if d <= 0 {
                None
            } else {
                Some(n.skip(d + 1))
            }
        },
        None => None,
    }
}

/// The index of the last `c` in `v`, or `None`.
fn last_index(v: &[char], c: char) -> (r: Option<usize>)
    ensures
        match r {
            Some(i) => i == last_index_before(v@, c, v@.len() as int) && i < v@.len(),
            None => last_index_before(v@, c, v@.len() as int) == -1,
        },
{
    let mut j = v.len();
    while j > 0 && v[j - 1] != c
        invariant
            j <= v@.len(),
            last_index_before(v@, c, j as int) == last_index_before(v@, c, v@.len() as int),
        decreases j,
    {
        j = j - 1;
    }
    if j == 0 {
        None
    } else {
        Some(j - 1)
    }
}

/// Whether `v` is exactly `.` or `..`.
fn is_dot_or_dot_dot(v: &[char]) -> (r: bool)
    ensures
        r == (v@ == seq!['.'] || v@ == seq!['.', '.']),
{
    if v.len() == 1 {
        let r = v[0] == '.';
        if r {
            assert(v@ =~= seq!['.']);
        }
        r
    } else if v.len() == 2 {
        let r = v[0] == '.' && v[1] == '.';
        if r {
            assert(v@ =~= seq!['.', '.']);
        }
        r
    } else {
        false
    }
}

/// The file name of a path (see [`file_name_of`]).
fn file_name(path: &[char]) -> (r: Option<Vec<char>>)
    ensures
        match r {
            Some(n) => file_name_of(path@) == Some(n@),
            None => file_name_of(path@) is None,
        },
{
    let mut end = path.len();
    assert(path@.take(end as int) =~= path@);
    while end > 0 && (path[end - 1] == '/' || (end >= 2 && path[end - 1] == '.' && path[end
        - 2] == '/'))
        invariant
            end <= path@.len(),
            strip_trailing(path@) == strip_trailing(path@.take(end as int)),
        decreases end,
    {
        assert(path@.take(end as int).drop_last() =~= path@.take(end - 1));
        end = end - 1;
    }
    let q = slice_range(path, 0, end);
    assert(q@ =~= path@.take(end as int));
    let start = match last_index(q.as_slice(), '/') {
        Some(i) => i + 1,
        None => 0,
    };
    let n = slice_range(q.as_slice(), start, q.len());
    assert(n@ =~= q@.skip(last_index_before(q@, '/', q@.len() as int) + 1));
    if n.len() == 0 || is_dot_or_dot_dot(n.as_slice()) {
        None
    } else {
        Some(n)
    }
}

/// The extension of a local file path, as `Path::extension` gives it on Unix
/// (see [`extension_of`]).
pub fn file_extension(path: &str) -> (r: Option<String>)
    ensures
        match r {
            Some(e) => extension_of(path@) == Some(e@),
            None => extension_of(path@) is None,
        },
{
    let chars = chars_of(path);
    let name = match file_name(chars.as_slice()) {
        Some(n) => n,
        None => {
            return None;
        },
    };
    match last_index(name.as_slice(), '.') {
        Some(d) => {
            if d == 0 {
                return None;
            }
            assert(d < name.len());
            let ext = slice_range(name.as_slice(), d + 1, name.len());
            assert(ext@ =~= name@.skip(d + 1));
            Some(string_from_chars(ext.as_slice()))
        },
        None => None,
    }
}

} // verus!
