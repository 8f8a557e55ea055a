use vstd::prelude::*;
use vstd::std_specs::cmp::PartialEqSpecImpl;

verus! {

/// One clipboard content kept in the history.
#[derive(Debug, Clone)]
pub enum ClipboardEntry {
    Text(String),
    Image { mime: String, bytes: Vec<u8>, hash: u64, thumbnail_png: Option<Vec<u8>> },
}

/// The mathematical value of a [`ClipboardEntry`].
pub enum EntryView {
    Text(Seq<char>),
    Image { mime: Seq<char>, bytes: Seq<u8>, hash: u64, thumbnail_png: Option<Seq<u8>> },
}

/// What identifies an entry when polling the clipboard for changes.
#[derive(Debug, Clone)]
pub enum ClipboardFingerprint {
    Text(String),
    Image { mime: String, bytes_len: usize, hash: u64 },
}

/// The mathematical value of a [`ClipboardFingerprint`].
pub enum FingerprintView {
    Text(Seq<char>),
    Image { mime: Seq<char>, bytes_len: usize, hash: u64 },
}

impl View for ClipboardEntry {
    type V = EntryView;

    open spec fn view(&self) -> EntryView {
        match self {
            ClipboardEntry::Text(t) => EntryView::Text(t@),
            ClipboardEntry::Image { mime, bytes, hash, thumbnail_png } => EntryView::Image {
                mime: mime@,
                bytes: bytes@,
                hash: *hash,
                thumbnail_png: match thumbnail_png {
                    Some(p) => Some(p@),
                    None => None,
                },
            },
        }
    }
}

impl View for ClipboardFingerprint {
    type V = FingerprintView;

    open spec fn view(&self) -> FingerprintView {
        match self {
            ClipboardFingerprint::Text(t) => FingerprintView::Text(t@),
            ClipboardFingerprint::Image { mime, bytes_len, hash } => FingerprintView::Image {
                mime: mime@,
                bytes_len: *bytes_len,
                hash: *hash,
            },
        }
    }
}

/// When two entries count as the same clipboard content: texts with equal
/// characters, or images with equal hash, MIME type and byte length (the
/// thumbnail and the bytes themselves are not compared).
pub open spec fn entries_match(a: EntryView, b: EntryView) -> bool {
    match (a, b) {
        (EntryView::Text(x), EntryView::Text(y)) => x == y,
        (
            EntryView::Image { mime: am, bytes: ab, hash: ah, .. },
            EntryView::Image { mime: bm, bytes: bb, hash: bh, .. },
        ) => ah == bh && am == bm && ab.len() == bb.len(),
        _ => false,
    }
}

/// The fingerprint of an entry: the text itself, or an image's MIME type,
/// byte length and hash.
pub open spec fn fingerprint_of(e: EntryView) -> FingerprintView {
    match e {
        EntryView::Text(t) => FingerprintView::Text(t),
        EntryView::Image { mime, bytes, hash, .. } => FingerprintView::Image {
            mime,
            bytes_len: bytes.len() as usize,
            hash,
        },
    }
}

/// The byte length of an image entry's bytes always fits in `usize`.
pub open spec fn entry_wf(e: EntryView) -> bool {
    match e {
        EntryView::Image { bytes, .. } => bytes.len() <= usize::MAX,
        _ => true,
    }
}

impl ClipboardEntry {
    /// The fingerprint that identifies this entry.
    pub fn fingerprint(&self) -> (fp: ClipboardFingerprint)
        ensures
            fp@ == fingerprint_of(self@),
    {
        match self {
            ClipboardEntry::Text(text) => ClipboardFingerprint::Text(text.clone()),
            ClipboardEntry::Image { mime, bytes, hash, thumbnail_png: _ } => {
                ClipboardFingerprint::Image { mime: mime.clone(), bytes_len: bytes.len(), hash: *hash }
            },
        }
    }

    /// Whether `self` and `other` are the same clipboard content.
    pub fn matches(&self, other: &ClipboardEntry) -> (r: bool)
        ensures
            r == entries_match(self@, other@),
    {
        match self {
            ClipboardEntry::Text(a) => match other {
                ClipboardEntry::Text(b) => a.eq(b),
                _ => false,
            },
            ClipboardEntry::Image { mime: am, bytes: ab, hash: ah, .. } => match other {
                ClipboardEntry::Image { mime: bm, bytes: bb, hash: bh, .. } => {
                    *ah == *bh && am.eq(bm) && ab.len() == bb.len()
                },
                _ => false,
            },
        }
    }
}

impl PartialEq for ClipboardEntry {
    fn eq(&self, other: &Self) -> (r: bool) {
        self.matches(other)
    }
}

impl Eq for ClipboardEntry {

}

impl PartialEqSpecImpl for ClipboardEntry {
    open spec fn obeys_eq_spec() -> bool {
        true
    }

    open spec fn eq_spec(&self, other: &ClipboardEntry) -> bool {
        entries_match(self@, other@)
    }
}

impl PartialEq for ClipboardFingerprint {
    fn eq(&self, other: &Self) -> (r: bool) {
        match self {
            ClipboardFingerprint::Text(a) => match other {
                ClipboardFingerprint::Text(b) => a.eq(b),
                _ => false,
            },
            ClipboardFingerprint::Image { mime: am, bytes_len: al, hash: ah } => match other {
                ClipboardFingerprint::Image { mime: bm, bytes_len: bl, hash: bh } => {
                    am.eq(bm) && *al == *bl && *ah == *bh
                },
                _ => false,
            },
        }
    }
}

impl Eq for ClipboardFingerprint {

}

impl PartialEqSpecImpl for ClipboardFingerprint {
    open spec fn obeys_eq_spec() -> bool {
        true
    }

    open spec fn eq_spec(&self, other: &ClipboardFingerprint) -> bool {
        self@ == other@
    }
}

} // verus!
