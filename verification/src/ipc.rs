//! Where the toggle signal file lives.
use vstd::prelude::*;

use crate::text::{chars_of, string_from_chars};

verus! {

/// The name of the signal file that the `--toggle` command writes.
pub open spec fn signal_file_name() -> Seq<char> {
    seq!['c', 'l', 'i', 'p', 'p', 'y', '-', 'l', 'a', 'n', 'd', '-', 't', 'o', 'g', 'g', 'l', 'e']
}

/// `dir` joined with the signal file name as `PathBuf::join` joins a relative
/// name: a `/` is put between them unless `dir` is empty or ends with one.
pub open spec fn signal_path_in(dir: Seq<char>) -> Seq<char> {
    if dir.len() > 0 && dir.last() != '/' {
        dir + seq!['/'] + signal_file_name()
    } else {
        dir + signal_file_name()
    }
}

/// The signal file path for the runtime directory (the value of
/// `XDG_RUNTIME_DIR`); `None` when there is none.
pub fn signal_file_path(runtime_dir: Option<String>) -> (r: Option<String>)
    ensures
        match runtime_dir {
            Some(d) => r matches Some(p) && p@ == signal_path_in(d@),
            None => r is None,
        },
{
    let dir = match runtime_dir {
        Some(d) => d,
        None => {
            return None;
        },
    };
    let mut chars = chars_of(dir.as_str());
    let ghost d = chars@;
    if chars.len() > 0 && chars[chars.len() - 1] != '/' {
        chars.push('/');
    }
    let name = chars_of(signal_file_name_str());
    let mut i: usize = 0;
    let ghost base = chars@;
    while i < name.len()
        invariant
            i <= name@.len(),
            name@ == signal_file_name(),
            chars@ =~= base + name@.subrange(0, i as int),
        decreases name@.len() - i,
    {
        chars.push(name[i]);
        i = i + 1;
    }
    assert(name@.subrange(0, name@.len() as int) =~= name@);
    Some(string_from_chars(chars.as_slice()))
}

/// The signal file name as a string.
pub fn signal_file_name_str() -> (r: &'static str)
    ensures
        r@ == signal_file_name(),
{
    proof {
        reveal_strlit("clippy-land-toggle");
    }
    "clippy-land-toggle"
}

} // verus!
