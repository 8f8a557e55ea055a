//! Image entries: the accepted image types, the size limit, the content hash
//! and the PNG thumbnail shown in the history.
use vstd::prelude::*;
use std::hash::{Hash, Hasher};

use crate::clipboard::model::{ClipboardEntry, EntryView};
use crate::text::{ascii_lower, char_ascii_lower, chars_of};

verus! {

/// The largest image, in bytes, that the history keeps.
pub const MAX_IMAGE_BYTES: usize = 8 * 1024 * 1024;

/// The size, in pixels, of the square that thumbnails fit in.
pub const THUMBNAIL_SIZE_PX: u32 = 400;

/// The image types that the clipboard is asked for, in this order.
#[derive(Debug, Clone, Copy, PartialEq, Eq, Structural)]
pub enum ImageKind {
    Png,
    Jpeg,
    WebP,
}

/// The MIME type of an image kind.
pub open spec fn kind_mime(k: ImageKind) -> Seq<char> {
    match k {
        ImageKind::Png => seq!['i', 'm', 'a', 'g', 'e', '/', 'p', 'n', 'g'],
        ImageKind::Jpeg => seq!['i', 'm', 'a', 'g', 'e', '/', 'j', 'p', 'e', 'g'],
        ImageKind::WebP => seq!['i', 'm', 'a', 'g', 'e', '/', 'w', 'e', 'b', 'p'],
    }
}

/// The image kind whose MIME type is `m`, if any.
pub open spec fn kind_of_mime(m: Seq<char>) -> Option<ImageKind> {
    if m == kind_mime(ImageKind::Png) {
        Some(ImageKind::Png)
    } else if m == kind_mime(ImageKind::Jpeg) {
        Some(ImageKind::Jpeg)
    } else if m == kind_mime(ImageKind::WebP) {
        Some(ImageKind::WebP)
    } else {
        None
    }
}

/// The image kind that a file extension names, ignoring ASCII case:
/// `png`, `jpg` or `jpeg`, `webp`.
pub open spec fn kind_of_extension(ext: Seq<char>) -> Option<ImageKind> {
    let e = ext.map_values(|c: char| ascii_lower(c));
    if e == seq!['p', 'n', 'g'] {
        Some(ImageKind::Png)
    } else if e == seq!['j', 'p', 'g'] || e == seq!['j', 'p', 'e', 'g'] {
        Some(ImageKind::Jpeg)
    } else if e == seq!['w', 'e', 'b', 'p'] {
        Some(ImageKind::WebP)
    } else {
        None
    }
}

/// What hashing the MIME type and then the bytes with the standard
/// library's `DefaultHasher` (created by `DefaultHasher::new`) gives.
pub uninterp spec fn content_hash(mime: Seq<char>, bytes: Seq<u8>) -> u64;

/// What the `image` crate gives for `bytes` read as an image of kind `kind`
/// (`image::load_from_memory_with_format`), scaled to fit a `size` by
/// `size` square with its aspect ratio kept (`DynamicImage::thumbnail`) and
/// encoded as PNG (`DynamicImage::write_to`): `None` when the bytes do not
/// decode as that kind, `Some(None)` when the encoding fails, else
/// `Some(Some(png))`.
pub uninterp spec fn png_thumbnail(bytes: Seq<u8>, kind: ImageKind, size: u32) -> Option<
    Option<Seq<u8>>,
>;

/// The view of an optional byte vector.
pub open spec fn opt_bytes(o: Option<Vec<u8>>) -> Option<Seq<u8>> {
    match o {
        Some(v) => Some(v@),
        None => None,
    }
}

/// Whether `thumb` is a thumbnail that `make_thumbnail_png` may give for
/// `bytes` of type `mime`: when `mime` names a kind and the bytes decode as
/// that kind, it is exactly the PNG thumbnail of that decoding (or `None` when
/// encoding it fails). Otherwise the format is guessed from the bytes, through
/// detection hooks that any code in the process may register, and nothing is
/// stated of the outcome.
pub open spec fn thumbnail_fits(mime: Seq<char>, bytes: Seq<u8>, thumb: Option<Seq<u8>>) -> bool {
    match kind_of_mime(mime) {
        Some(k) => match png_thumbnail(bytes, k, THUMBNAIL_SIZE_PX) {
            Some(t) => thumb == t,
            None => true,
        },
        None => true,
    }
}

/// Whether `e` is the image entry made from `mime` and `bytes`: it holds them,
/// their content hash, and the thumbnail that [`thumbnail_fits`] describes.
pub open spec fn is_image_entry_of(e: EntryView, mime: Seq<char>, bytes: Seq<u8>) -> bool {
    match e {
        EntryView::Image { mime: m, bytes: b, hash, thumbnail_png } => {
            &&& m == mime
            &&& b == bytes
            &&& hash == content_hash(mime, bytes)
            &&& thumbnail_fits(mime, bytes, thumbnail_png)
        },
        EntryView::Text(_) => false,
    }
}

/// The hash of an image's MIME type and bytes: `DefaultHasher::new()`, fed
/// the MIME type and then the bytes through `Hash`, then `finish`. The result
/// is named: it depends on the two arguments alone; its value is not stated.
#[verifier::external_body]
fn hash_image(mime: &str, bytes: &[u8]) -> (h: u64)
    ensures
        h == content_hash(mime@, bytes@),
{
    let mut hasher = std::collections::hash_map::DefaultHasher::new();
    mime.hash(&mut hasher);
    bytes.hash(&mut hasher);
    hasher.finish()
}

/// Decodes `bytes` (as `kind`, with `image::load_from_memory_with_format`;
/// with no kind, in the format that `image::load_from_memory` guesses), scales
/// the image to fit a `size` by `size` square (`DynamicImage::thumbnail`) and
/// encodes that as PNG (`DynamicImage::write_to`). `None` when decoding fails,
/// `Some(None)` when encoding fails. With a kind the result is named: it
/// depends on the arguments alone. Guessing the format goes through detection
/// hooks that any code in the process may register, so with no kind nothing
/// is stated of the result.
#[verifier::external_body]
fn decode_thumbnail_png(bytes: &[u8], kind: Option<ImageKind>, size: u32) -> (r: Option<Option<Vec<u8>>>)
    ensures
        kind matches Some(k) ==> match r {
            Some(t) => png_thumbnail(bytes@, k, size) == Some(opt_bytes(t)),
            None => png_thumbnail(bytes@, k, size) is None,
        },
{
    let decoded = match kind {
        Some(ImageKind::Png) => image::load_from_memory_with_format(bytes, image::ImageFormat::Png),
        Some(ImageKind::Jpeg) => image::load_from_memory_with_format(bytes, image::ImageFormat::Jpeg),
        Some(ImageKind::WebP) => image::load_from_memory_with_format(bytes, image::ImageFormat::WebP),
        None => image::load_from_memory(bytes),
    };
    let Ok(img) = decoded else { return None };
    let mut out = Vec::new();
    match img.thumbnail(size, size).write_to(&mut std::io::Cursor::new(&mut out), image::ImageFormat::Png) {
        Ok(()) => Some(Some(out)),
        Err(_) => Some(None),
    }
}

/// Whether the characters of two slices are equal.
fn chars_equal(a: &[char], b: &[char]) -> (r: bool)
    ensures
        r == (a@ == b@),
{
    if a.len() != b.len() {
        return false;
    }
    let mut i: usize = 0;
    while i < a.len()
        invariant
            a@.len() == b@.len(),
            i <= a@.len(),
            forall|k: int| 0 <= k < i ==> a@[k] == b@[k],
        decreases a@.len() - i,
    {
        if a[i] != b[i] {
            return false;
        }
        i = i + 1;
    }
    assert(a@ =~= b@);
    true
}

impl ImageKind {
    /// The MIME type of this kind.
    pub fn mime(&self) -> (r: &'static str)
        ensures
            r@ == kind_mime(*self),
    {
        proof {
            reveal_strlit("image/png");
            reveal_strlit("image/jpeg");
            reveal_strlit("image/webp");
        }
        match self {
            ImageKind::Png => "image/png",
            ImageKind::Jpeg => "image/jpeg",
            ImageKind::WebP => "image/webp",
        }
    }
}

/// The image kinds the clipboard is asked for, in the order they are tried.
pub fn image_kinds() -> (r: Vec<ImageKind>)
    ensures
        r@ == seq![ImageKind::Png, ImageKind::Jpeg, ImageKind::WebP],
{
    vec![ImageKind::Png, ImageKind::Jpeg, ImageKind::WebP]
}

/// The image kind whose MIME type is `mime`, if any.
pub fn image_kind_of_mime(mime: &str) -> (r: Option<ImageKind>)
    ensures
        r == kind_of_mime(mime@),
{
    let m = chars_of(mime);
    let png = chars_of(ImageKind::Png.mime());
    let jpeg = chars_of(ImageKind::Jpeg.mime());
    let webp = chars_of(ImageKind::WebP.mime());
    if chars_equal(m.as_slice(), png.as_slice()) {
        Some(ImageKind::Png)
    } else if chars_equal(m.as_slice(), jpeg.as_slice()) {
        Some(ImageKind::Jpeg)
    } else if chars_equal(m.as_slice(), webp.as_slice()) {
        Some(ImageKind::WebP)
    } else {
        None
    }
}

/// The image kind that a file extension names, ignoring ASCII case.
pub fn image_kind_of_extension(ext: &str) -> (r: Option<ImageKind>)
    ensures
        r == kind_of_extension(ext@),
{
    let chars = chars_of(ext);
    let mut lower: Vec<char> = Vec::new();
    let mut i: usize = 0;
    while i < chars.len()
        invariant
            i <= chars@.len(),
            lower@ =~= chars@.subrange(0, i as int).map_values(|c: char| ascii_lower(c)),
        decreases chars@.len() - i,
    {
        lower.push(char_ascii_lower(chars[i]));
        i = i + 1;
    }
    assert(chars@.subrange(0, chars@.len() as int) =~= chars@);
    let png = vec!['p', 'n', 'g'];
    let jpg = vec!['j', 'p', 'g'];
    let jpeg = vec!['j', 'p', 'e', 'g'];
    let webp = vec!['w', 'e', 'b', 'p'];
    if chars_equal(lower.as_slice(), png.as_slice()) {
        Some(ImageKind::Png)
    } else if chars_equal(lower.as_slice(), jpg.as_slice()) || chars_equal(
        lower.as_slice(),
        jpeg.as_slice(),
    ) {
        Some(ImageKind::Jpeg)
    } else if chars_equal(lower.as_slice(), webp.as_slice()) {
        Some(ImageKind::WebP)
    } else {
        None
    }
}

/// A PNG thumbnail of the image, scaled to fit `THUMBNAIL_SIZE_PX` square:
/// decoded as the kind that `mime` names (falling back to the guessed format
/// when that fails), or as the guessed format for other MIME types; `None`
/// when it does not decode or the encoding fails (see [`thumbnail_fits`]).
pub fn make_thumbnail_png(mime: &str, bytes: &[u8]) -> (r: Option<Vec<u8>>)
    ensures
        thumbnail_fits(mime@, bytes@, opt_bytes(r)),
{
    let kind = image_kind_of_mime(mime);
    let decoded = match kind {
        Some(k) => match decode_thumbnail_png(bytes, Some(k), THUMBNAIL_SIZE_PX) {
            Some(t) => Some(t),
            None => decode_thumbnail_png(bytes, None, THUMBNAIL_SIZE_PX),
        },
        None => decode_thumbnail_png(bytes, None, THUMBNAIL_SIZE_PX),
    };
    match decoded {
        Some(t) => t,
        None => None,
    }
}

/// An image entry for `bytes` of type `mime`: `None` when the bytes are empty
/// or larger than `MAX_IMAGE_BYTES`; otherwise the bytes with their content
/// hash and, where they decode, a PNG thumbnail.
pub fn clipboard_entry_from_image_bytes(mime: String, bytes: Vec<u8>) -> (r: Option<ClipboardEntry>)
    ensures
        r is None <==> (bytes@.len() == 0 || bytes@.len() > MAX_IMAGE_BYTES),
        r matches Some(e) ==> is_image_entry_of(e@, mime@, bytes@),
{
    if bytes.len() == 0 || bytes.len() > MAX_IMAGE_BYTES {
        return None;
    }
    let hash = hash_image(mime.as_str(), bytes.as_slice());
    let thumbnail_png = make_thumbnail_png(mime.as_str(), bytes.as_slice());
    Some(ClipboardEntry::Image { mime, bytes, hash, thumbnail_png })
}

} // verus!
