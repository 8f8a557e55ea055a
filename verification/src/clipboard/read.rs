//! What a clipboard read gives, decided from the raw contents that the
//! clipboard hands over. Reading an entry tries the image types in turn,
//! then an image file named by a `text/uri-list`, then text; the order is a
//! small state machine whose transitions are here and whose fetches are done
//! by the caller.
use vstd::prelude::*;
use vstd::utf8::{decode_utf8, valid_utf8};

use crate::clipboard::image::{
    clipboard_entry_from_image_bytes, image_kind_of_extension, is_image_entry_of, kind_mime,
    kind_of_extension, ImageKind, MAX_IMAGE_BYTES,
};
use crate::path::{extension_of, file_extension};
use crate::clipboard::model::ClipboardEntry;
use crate::clipboard::uri::{first_local_path_from, parse_first_local_path_from_uri_list, string_from_utf8};
use crate::text::{chars_of, slice_range, string_from_chars};

verus! {

/// `s` without the `'\n'` and `'\r'` characters at its end.
pub open spec fn trim_end_newlines(s: Seq<char>) -> Seq<char>
    decreases s.len(),
{
    if s.len() > 0 && (s.last() == '\n' || s.last() == '\r') {
        trim_end_newlines(s.drop_last())
    } else {
        s
    }
}

/// The text that read clipboard bytes give: the UTF-8 text without trailing
/// line breaks; `None` when the bytes are not UTF-8 or nothing is left.
pub open spec fn text_of_read(bytes: Seq<u8>) -> Option<Seq<char>> {
    if valid_utf8(bytes) {
        let t = trim_end_newlines(decode_utf8(bytes));
        if t.len() == 0 {
            None
        } else {
            Some(t)
        }
    } else {
        None
    }
}

/// The next step of reading a clipboard entry.
#[derive(Debug)]
pub enum ReadStep {
    /// Fetch the clipboard content offered as this image kind.
    FetchImage(ImageKind),
    /// Fetch the clipboard content offered as `text/uri-list`.
    FetchUriList,
    /// Read the image file at this local path; its extension names this image kind.
    FetchImageFile(String, ImageKind),
    /// Fetch the clipboard content offered as text.
    FetchText,
    /// Reading is over, with this entry or none.
    Done(Option<ClipboardEntry>),
}

/// What a fetch gave: nothing (the clipboard or the file had no such
/// content, or reading it failed), or bytes with their MIME type.
#[derive(Debug)]
pub enum Fetched {
    Nothing,
    Content { mime: String, bytes: Vec<u8> },
}

/// The image kind tried after `k`, or the URI list after the last one.
pub open spec fn after_image_kind(k: ImageKind) -> ReadStep {
    match k {
        ImageKind::Png => ReadStep::FetchImage(ImageKind::Jpeg),
        ImageKind::Jpeg => ReadStep::FetchImage(ImageKind::WebP),
        ImageKind::WebP => ReadStep::FetchUriList,
    }
}

/// Whether fetched image bytes are kept: not empty and within the size limit.
pub open spec fn image_fits(f: Fetched) -> bool {
    match f {
        Fetched::Content { bytes, .. } => 0 < bytes@.len() <= MAX_IMAGE_BYTES,
        Fetched::Nothing => false,
    }
}

/// Whether `r` is the image entry made of what was fetched, of MIME type
/// `mime` when one is given and else of the fetched MIME type.
pub open spec fn done_with_image_of(r: ReadStep, f: Fetched, mime: Option<Seq<char>>) -> bool {
    match f {
        Fetched::Content { mime: fetched_mime, bytes } => match r {
            ReadStep::Done(Some(e)) => is_image_entry_of(
                e@,
                match mime {
                    Some(m) => m,
                    None => fetched_mime@,
                },
                bytes@,
            ),
            _ => false,
        },
        Fetched::Nothing => false,
    }
}

/// The image kind that the extension of a local path names, if any.
pub open spec fn kind_of_path(p: Seq<char>) -> Option<ImageKind> {
    match extension_of(p) {
        Some(e) => kind_of_extension(e),
        None => None,
    }
}

/// The local path that fetched `text/uri-list` bytes name, if any.
pub open spec fn uri_list_path(f: Fetched) -> Option<Seq<char>> {
    match f {
        Fetched::Content { bytes, .. } => if valid_utf8(bytes@) {
            first_local_path_from(decode_utf8(bytes@), 0)
        } else {
            None
        },
        Fetched::Nothing => None,
    }
}

/// Whether `r` is the step that follows `step` once `f` was fetched:
/// an image that fits ends the reading with its entry, else the next image
/// kind (then the URI list) is tried; a URI list that names a local path
/// whose extension names an image kind leads to that file, else to the text;
/// an image file that fits ends the reading with an entry of the kind its
/// extension names, else the text is tried; the text ends the reading with a text
/// entry, or with none when it is empty or not UTF-8.
pub open spec fn read_advances(step: ReadStep, f: Fetched, r: ReadStep) -> bool {
    match step {
        ReadStep::FetchImage(k) => if image_fits(f) {
            done_with_image_of(r, f, None)
        } else {
            r == after_image_kind(k)
        },
        ReadStep::FetchUriList => match uri_list_path(f) {
            Some(p) => match kind_of_path(p) {
                Some(k) => r matches ReadStep::FetchImageFile(q, j) && q@ == p && j == k,
                None => r == ReadStep::FetchText,
            },
            None => r == ReadStep::FetchText,
        },
        ReadStep::FetchImageFile(_, k) => if image_fits(f) {
            done_with_image_of(r, f, Some(kind_mime(k)))
        } else {
            r == ReadStep::FetchText
        },
        ReadStep::FetchText => match f {
            Fetched::Content { bytes, .. } => match text_of_read(bytes@) {
                Some(t) => r matches ReadStep::Done(Some(ClipboardEntry::Text(s))) && s@ == t,
                None => r == ReadStep::Done(None),
            },
            Fetched::Nothing => r == ReadStep::Done(None),
        },
        ReadStep::Done(_) => r == step,
    }
}

/// The text of the clipboard from the bytes it handed over for the text type
/// (`None` when the read failed): see [`text_of_read`].
pub fn read_clipboard_text(contents: Option<Vec<u8>>) -> (r: Option<String>)
    ensures
        match contents {
            Some(b) => match r {
                Some(s) => text_of_read(b@) == Some(s@),
                None => text_of_read(b@) is None,
            },
            None => r is None,
        },
{
    let bytes = match contents {
        Some(b) => b,
        None => {
            return None;
        },
    };
    let ghost b = bytes@;
    let text = match string_from_utf8(bytes) {
        Some(t) => t,
        None => {
            return None;
        },
    };
    let chars = chars_of(text.as_str());
    let mut end = chars.len();
    assert(chars@.subrange(0, end as int) =~= chars@);
    while end > 0 && (chars[end - 1] == '\n' || chars[end - 1] == '\r')
        invariant
            end <= chars@.len(),
            trim_end_newlines(chars@) == trim_end_newlines(chars@.subrange(0, end as int)),
        decreases end,
    {
        assert(chars@.subrange(0, end as int).drop_last() =~= chars@.subrange(0, end - 1));
        end = end - 1;
    }
    if end == 0 {
        return None;
    }
    let kept = slice_range(chars.as_slice(), 0, end);
    Some(string_from_chars(kept.as_slice()))
}

/// The image entry for the bytes the clipboard handed over for an image
/// type, with the MIME type it reported: `None` when they are empty or larger
/// than `MAX_IMAGE_BYTES`.
pub fn read_clipboard_image(actual_mime: String, bytes: Vec<u8>) -> (r: Option<ClipboardEntry>)
    ensures
        r is None <==> (bytes@.len() == 0 || bytes@.len() > MAX_IMAGE_BYTES),
        r matches Some(e) ==> is_image_entry_of(e@, actual_mime@, bytes@),
{
    if bytes.len() > MAX_IMAGE_BYTES {
        return None;
    }
    clipboard_entry_from_image_bytes(actual_mime, bytes)
}

/// The step that starts reading a clipboard entry: the first image kind.
pub fn first_read_step() -> (r: ReadStep)
    ensures
        r == ReadStep::FetchImage(ImageKind::Png),
{
    ReadStep::FetchImage(ImageKind::Png)
}

/// The step of reading a clipboard entry that follows `step` once `fetched`
/// was fetched (see [`read_advances`]).
pub fn read_clipboard_entry(step: ReadStep, fetched: Fetched) -> (r: ReadStep)
    ensures
        read_advances(step, fetched, r),
{
    match step {
        ReadStep::FetchImage(kind) => {
            let entry = match fetched {
                Fetched::Content { mime, bytes } => read_clipboard_image(mime, bytes),
                Fetched::Nothing => None,
            };
            match entry {
                Some(e) => ReadStep::Done(Some(e)),
                None => match kind {
                    ImageKind::Png => ReadStep::FetchImage(ImageKind::Jpeg),
                    ImageKind::Jpeg => ReadStep::FetchImage(ImageKind::WebP),
                    ImageKind::WebP => ReadStep::FetchUriList,
                },
            }
        },
        ReadStep::FetchUriList => {
            let path = match fetched {
                Fetched::Content { mime: _, bytes } => match string_from_utf8(bytes) {
                    Some(uris) => parse_first_local_path_from_uri_list(uris.as_str()),
                    None => None,
                },
                Fetched::Nothing => None,
            };
            match path {
                Some(p) => {
                    let kind = match file_extension(p.as_str()) {
                        Some(ext) => image_kind_of_extension(ext.as_str()),
                        None => None,
                    };
                    match kind {
                        Some(k) => ReadStep::FetchImageFile(p, k),
                        None => ReadStep::FetchText,
                    }
                },
                None => ReadStep::FetchText,
            }
        },
        ReadStep::FetchImageFile(_, kind) => {
            let entry = match fetched {
                Fetched::Content { mime: _, bytes } => {
                    let mime = string_from_chars(chars_of(kind.mime()).as_slice());
                    clipboard_entry_from_image_bytes(mime, bytes)
                },
                Fetched::Nothing => None,
            };
            match entry {
                Some(e) => ReadStep::Done(Some(e)),
                None => ReadStep::FetchText,
            }
        },
        ReadStep::FetchText => {
            let text = match fetched {
                Fetched::Content { mime: _, bytes } => read_clipboard_text(Some(bytes)),
                Fetched::Nothing => None,
            };
            match text {
                Some(t) => ReadStep::Done(Some(ClipboardEntry::Text(t))),
                None => ReadStep::Done(None),
            }
        },
        ReadStep::Done(e) => ReadStep::Done(e),
    }
}

} // verus!
