//! Clipboard entries and the pure logic around reading them: fingerprints,
//! `text/uri-list` parsing, image entries and the post-processing of raw reads.
pub mod image;
pub mod model;
pub mod read;
pub mod uri;

pub use model::{ClipboardEntry, ClipboardFingerprint};
