//! Local file paths out of a `text/uri-list` clipboard content.
use vstd::prelude::*;
use vstd::utf8::{decode_utf8, encode_utf8, valid_utf8};

use crate::text::{
    chars_of, find_line_end, lemma_line_end_range, line_end, slice_range, string_from_chars, trim,
    trim_bounds,
};

verus! {

/// The value of an ASCII hex digit (`0-9`, `a-f`, `A-F`).
pub open spec fn hex_digit(b: u8) -> Option<u8> {
    if 0x30 <= b <= 0x39 {
        Some((b - 0x30) as u8)
    } else if 0x61 <= b <= 0x66 {
        Some((b - 0x61 + 10) as u8)
    } else if 0x41 <= b <= 0x46 {
        Some((b - 0x41 + 10) as u8)
    } else {
        None
    }
}

/// `b` with every `%` that has two more bytes after it replaced by the byte
/// that those two hex digits spell; `None` when such a pair is not hex.
/// A `%` among the last two bytes is kept as it is.
pub open spec fn percent_decoded(b: Seq<u8>) -> Option<Seq<u8>>
    decreases b.len(),
{
    if b.len() == 0 {
        Some(Seq::empty())
    } else if b[0] == 0x25 && b.len() > 2 {
        match (hex_digit(b[1]), hex_digit(b[2])) {
            (Some(h), Some(l)) => match percent_decoded(b.skip(3)) {
                Some(r) => Some(seq![(h * 16 + l) as u8] + r),
                None => None,
            },
            _ => None,
        }
    } else {
        match percent_decoded(b.skip(1)) {
            Some(r) => Some(seq![b[0]] + r),
            None => None,
        }
    }
}

/// The text that a percent-encoded path spells: the UTF-8 bytes of `input`,
/// percent-decoded, read back as UTF-8; `None` when a `%` pair is not hex or
/// the decoded bytes are not UTF-8.
pub open spec fn decoded_path(input: Seq<char>) -> Option<Seq<char>> {
    match percent_decoded(encode_utf8(input)) {
        Some(bytes) => if valid_utf8(bytes) {
            Some(decode_utf8(bytes))
        } else {
            None
        },
        None => None,
    }
}

/// The `file://` scheme prefix.
pub open spec fn file_scheme() -> Seq<char> {
    seq!['f', 'i', 'l', 'e', ':', '/', '/']
}

/// The index of the first `'\r'` or `'\n'` at or after `i`, or the length of `s`.
pub open spec fn break_at(s: Seq<char>, i: int) -> int
    decreases s.len() - i,
{
    if i < 0 || i >= s.len() {
        s.len() as int
    } else if s[i] == '\r' || s[i] == '\n' {
        i
    } else {
        break_at(s, i + 1)
    }
}

/// The local path that a `file://` URI names: what follows the scheme up to
/// the first line break, trimmed, percent-decoded; `None` for another scheme,
/// an empty path or a path that does not decode.
pub open spec fn path_of_file_uri(uri: Seq<char>) -> Option<Seq<char>> {
    if uri.len() < 7 || uri.take(7) != file_scheme() {
        None
    } else {
        let rest = uri.skip(7);
        let part = trim(rest.take(break_at(rest, 0)));
        if part.len() == 0 {
            None
        } else {
            decoded_path(part)
        }
    }
}

/// The path that one line of a URI list gives: none for a blank line or a
/// comment (`#`), else the path of its `file://` URI.
pub open spec fn path_of_uri_line(line: Seq<char>) -> Option<Seq<char>> {
    let t = trim(line);
    if t.len() == 0 || t[0] == '#' {
        None
    } else {
        path_of_file_uri(t)
    }
}

/// The first local path given by a line that starts at or after `i`.
pub open spec fn first_local_path_from(s: Seq<char>, i: int) -> Option<Seq<char>>
    decreases s.len() - i,
{
    if i < 0 || i > s.len() {
        None
    } else {
        let e = line_end(s, i);
        let here = path_of_uri_line(s.subrange(i, e));
        if here is Some {
            here
        } else if e < s.len() {
            proof {
                lemma_line_end_range(s, i);
            }
            first_local_path_from(s, e + 1)
        } else {
            None
        }
    }
}

/// `String::from_utf8`: the bytes read as UTF-8 text, or `None` when they are
/// not valid UTF-8.
#[verifier::external_body]
pub(crate) fn string_from_utf8(bytes: Vec<u8>) -> (r: Option<String>)
    ensures
        r is Some <==> valid_utf8(bytes@),
        r matches Some(s) ==> s@ == decode_utf8(bytes@),
{
    String::from_utf8(bytes).ok()
}

/// The value of an ASCII hex digit.
pub fn hex_val(b: u8) -> (r: Option<u8>)
    ensures
        r == hex_digit(b),
{
    if 0x30 <= b && b <= 0x39 {
        Some(b - 0x30)
    } else if 0x61 <= b && b <= 0x66 {
        Some(10 + b - 0x61)
    } else if 0x41 <= b && b <= 0x46 {
        Some(10 + b - 0x41)
    } else {
        None
    }
}

/// Percent-decodes `input` and reads the result as UTF-8 (see [`decoded_path`]).
pub fn percent_decode_to_path(input: &str) -> (r: Option<String>)
    ensures
        r matches Some(p) ==> decoded_path(input@) == Some(p@),
        r is None ==> decoded_path(input@) is None,
{
    let bytes = input.as_bytes();
    let ghost b = bytes@;
    assert(b == encode_utf8(input@));
    let n = bytes.len();
    let mut out: Vec<u8> = Vec::new();
    let mut i: usize = 0;
    assert(b.skip(0) =~= b);
    while i < n
        invariant
            n == b.len(),
            b == bytes@,
            b == encode_utf8(input@),
            i <= n,
            match percent_decoded(b.skip(i as int)) {
                Some(r) => percent_decoded(b) == Some(out@ + r),
                None => percent_decoded(b) is None,
            },
        decreases n - i,
    {
        let ghost rest = b.skip(i as int);
        assert(rest[0] == b[i as int]);
        if bytes[i] == 0x25 && n - i > 2 {
            assert(rest[1] == b[i + 1] && rest[2] == b[i + 2]);
            let h = match hex_val(bytes[i + 1]) {
                Some(h) => h,
                None => {
                    assert(rest.len() > 2 && hex_digit(rest[1]) is None);
                    assert(percent_decoded(rest) is None);
                    return None;
                },
            };
            let l = match hex_val(bytes[i + 2]) {
                Some(l) => l,
                None => {
                    assert(rest.len() > 2 && hex_digit(rest[2]) is None);
                    assert(percent_decoded(rest) is None);
                    return None;
                },
            };
            assert(h < 16 && l < 16);
            let x = (h << 4) | l;
            assert(x == h * 16 + l) by (bit_vector)
                requires
                    h < 16 && l < 16 && x == (h << 4) | l,
            ;
            assert(rest.skip(3) =~= b.skip(i + 3));
            let ghost old_out = out@;
            out.push(x);
            proof {
                if let Some(r) = percent_decoded(b.skip(i + 3)) {
                    assert(out@ + r =~= old_out + (seq![x] + r));
                }
            }
            i = i + 3;
        } else {
            assert(rest.skip(1) =~= b.skip(i + 1));
            let ghost old_out = out@;
            out.push(bytes[i]);
            proof {
                if let Some(r) = percent_decoded(b.skip(i + 1)) {
                    assert(out@ + r =~= old_out + (seq![b[i as int]] + r));
                }
            }
            i = i + 1;
        }
    }
    assert(b.skip(n as int) =~= Seq::<u8>::empty());
    assert(out@ + Seq::<u8>::empty() =~= out@);
    string_from_utf8(out)
}

/// The character at index `k` of `file://`.
fn scheme_char(k: usize) -> (c: char)
    requires
        k < 7,
    ensures
        c == file_scheme()[k as int],
{
    match k {
        0 => 'f',
        1 => 'i',
        2 => 'l',
        3 => 'e',
        4 => ':',
        _ => '/',
    }
}

/// The path named by a `file://` URI given as characters (see [`path_of_file_uri`]).
fn path_from_file_uri_chars(uri: &[char]) -> (r: Option<String>)
    ensures
        r matches Some(p) ==> path_of_file_uri(uri@) == Some(p@),
        r is None ==> path_of_file_uri(uri@) is None,
{
    if uri.len() < 7 {
        return None;
    }
    let mut k: usize = 0;
    while k < 7
        invariant
            7 <= uri@.len(),
            k <= 7,
            forall|j: int| 0 <= j < k ==> uri@[j] == file_scheme()[j],
        decreases 7 - k,
    {
        if uri[k] != scheme_char(k) {
            assert(uri@.take(7)[k as int] != file_scheme()[k as int]);
            return None;
        }
        k = k + 1;
    }
    assert(uri@.take(7) =~= file_scheme());
    let rest = slice_range(uri, 7, uri.len());
    let mut e: usize = 0;
    while e < rest.len() && rest[e] != '\r' && rest[e] != '\n'
        invariant
            e <= rest@.len(),
            break_at(rest@, e as int) == break_at(rest@, 0),
        decreases rest@.len() - e,
    {
        e = e + 1;
    }
    assert(rest@ =~= uri@.skip(7));
    let head = slice_range(rest.as_slice(), 0, e);
    assert(head@ =~= rest@.take(e as int));
    let (s, t) = trim_bounds(head.as_slice());
    if s == t {
        return None;
    }
    let part = slice_range(head.as_slice(), s, t);
    let text = string_from_chars(part.as_slice());
    percent_decode_to_path(text.as_str())
}

/// The local path named by a `file://` URI (see [`path_of_file_uri`]).
pub fn path_from_file_uri(uri: &str) -> (r: Option<String>)
    ensures
        r matches Some(p) ==> path_of_file_uri(uri@) == Some(p@),
        r is None ==> path_of_file_uri(uri@) is None,
{
    let chars = chars_of(uri);
    path_from_file_uri_chars(chars.as_slice())
}

/// The first local path in a `text/uri-list` content: blank lines and
/// comments are skipped, and lines that give no path (another scheme, a path
/// that does not decode) are passed over.
pub fn parse_first_local_path_from_uri_list(uri_list: &str) -> (r: Option<String>)
    ensures
        r matches Some(p) ==> first_local_path_from(uri_list@, 0) == Some(p@),
        r is None ==> first_local_path_from(uri_list@, 0) is None,
{
    let chars = chars_of(uri_list);
    let n = chars.len();
    let mut i: usize = 0;
    loop
        invariant
            i <= n == chars@.len(),
            chars@ == uri_list@,
            first_local_path_from(chars@, 0) == first_local_path_from(chars@, i as int),
        decreases n - i,
    {
        let e = find_line_end(chars.as_slice(), i);
        let line = slice_range(chars.as_slice(), i, e);
        let (s, t) = trim_bounds(line.as_slice());
        if s < t && line[s] != '#' {
            let trimmed = slice_range(line.as_slice(), s, t);
            assert(trimmed@ == trim(line@));
            if let Some(path) = path_from_file_uri_chars(trimmed.as_slice()) {
                return Some(path);
            }
        }
        if e >= n {
            return None;
        }
        i = e + 1;
    }
}

} // verus!
