use clippy_land::clipboard::image::{
    clipboard_entry_from_image_bytes, image_kind_of_extension, image_kind_of_mime,
    make_thumbnail_png, ImageKind, MAX_IMAGE_BYTES,
};
use clippy_land::clipboard::read::{
    first_read_step, read_clipboard_entry, read_clipboard_image, read_clipboard_text, Fetched,
    ReadStep,
};
use clippy_land::clipboard::uri::{
    hex_val, parse_first_local_path_from_uri_list, path_from_file_uri, percent_decode_to_path,
};
use clippy_land::clipboard::{ClipboardEntry, ClipboardFingerprint};
use clippy_land::path::file_extension;
use std::path::PathBuf;

fn image_entry(
    mime: &str,
    bytes: Vec<u8>,
    hash: u64,
    thumbnail_png: Option<Vec<u8>>,
) -> ClipboardEntry {
    ClipboardEntry::Image {
        mime: mime.to_string(),
        bytes,
        hash,
        thumbnail_png,
    }
}

fn tiny_png() -> Vec<u8> {
    png_of_size(2, 2)
}

fn png_of_size(w: u32, h: u32) -> Vec<u8> {
    let img = image::RgbaImage::from_pixel(w, h, image::Rgba([0, 255, 0, 255]));
    let mut png = Vec::new();
    image::DynamicImage::ImageRgba8(img)
        .write_to(&mut std::io::Cursor::new(&mut png), image::ImageFormat::Png)
        .expect("test image encoding should work");
    png
}

#[test]
fn text_fingerprint_matches_text_content() {
    let entry = ClipboardEntry::Text("hello".to_string());
    assert_eq!(
        entry.fingerprint(),
        ClipboardFingerprint::Text("hello".to_string())
    );
}

#[test]
fn image_fingerprint_tracks_mime_hash_and_length() {
    let entry = image_entry("image/png", vec![1, 2, 3, 4], 99, None);
    assert_eq!(
        entry.fingerprint(),
        ClipboardFingerprint::Image {
            mime: "image/png".to_string(),
            bytes_len: 4,
            hash: 99,
        }
    );
}

#[test]
fn image_equality_uses_hash_mime_and_length() {
    let a = image_entry("image/png", vec![1, 2, 3], 7, None);
    let b = image_entry("image/png", vec![9, 8, 7], 7, Some(vec![0, 1, 2]));
    let c = image_entry("image/png", vec![9, 8], 7, None);
    let d = image_entry("image/png", vec![9, 8, 7], 8, None);

    assert_eq!(a, b);
    assert_ne!(a, c);
    assert_ne!(a, d);
}

#[test]
fn text_and_image_never_match() {
    let t = ClipboardEntry::Text("image/png".to_string());
    let i = image_entry("image/png", vec![], 0, None);
    assert_ne!(t, i);
    assert_ne!(t.fingerprint(), i.fingerprint());
}

#[test]
fn parses_first_local_file_uri() {
    let list = "# comment\n\nfile:///tmp/hello%20world.png\nfile:///tmp/second.jpg\n";
    let parsed = parse_first_local_path_from_uri_list(list).expect("first path should parse");
    assert_eq!(PathBuf::from(parsed), PathBuf::from("/tmp/hello world.png"));
}

#[test]
fn uri_list_skips_other_schemes_and_bad_escapes() {
    let list = "https://example.org/a.png\r\nfile:///bad%zz.png\r\n  file:///ok.png  \r\n";
    assert_eq!(
        parse_first_local_path_from_uri_list(list).as_deref(),
        Some("/ok.png")
    );
    assert_eq!(parse_first_local_path_from_uri_list("# only\n\n"), None);
    assert_eq!(parse_first_local_path_from_uri_list(""), None);
}

#[test]
fn file_uri_paths() {
    assert_eq!(path_from_file_uri("file:///a%2Fb").as_deref(), Some("/a/b"));
    assert_eq!(path_from_file_uri("file:// ").as_deref(), None);
    assert_eq!(path_from_file_uri("file:///x\ry").as_deref(), Some("/x"));
    assert_eq!(path_from_file_uri("FILE:///x").as_deref(), None);
}

#[test]
fn percent_decoding() {
    assert_eq!(percent_decode_to_path("%41%62c").as_deref(), Some("Abc"));
    assert_eq!(percent_decode_to_path("100%").as_deref(), Some("100%"));
    assert_eq!(percent_decode_to_path("a%4").as_deref(), Some("a%4"));
    assert_eq!(percent_decode_to_path("%C3%A9").as_deref(), Some("é"));
    assert_eq!(percent_decode_to_path("%FF"), None);
    assert_eq!(percent_decode_to_path("%g1x"), None);
    assert_eq!(percent_decode_to_path("plain/path"), Some("plain/path".to_string()));
}

#[test]
fn hex_values() {
    assert_eq!(hex_val(b'0'), Some(0));
    assert_eq!(hex_val(b'9'), Some(9));
    assert_eq!(hex_val(b'a'), Some(10));
    assert_eq!(hex_val(b'F'), Some(15));
    assert_eq!(hex_val(b'g'), None);
}

#[test]
fn image_kinds_of_mime_and_extension() {
    assert_eq!(image_kind_of_mime("image/png"), Some(ImageKind::Png));
    assert_eq!(image_kind_of_mime("image/jpeg"), Some(ImageKind::Jpeg));
    assert_eq!(image_kind_of_mime("image/webp"), Some(ImageKind::WebP));
    assert_eq!(image_kind_of_mime("image/gif"), None);
    assert_eq!(image_kind_of_extension("PNG"), Some(ImageKind::Png));
    assert_eq!(image_kind_of_extension("jpg"), Some(ImageKind::Jpeg));
    assert_eq!(image_kind_of_extension("JpEg"), Some(ImageKind::Jpeg));
    assert_eq!(image_kind_of_extension("webp"), Some(ImageKind::WebP));
    assert_eq!(image_kind_of_extension("gif"), None);
    assert_eq!(ImageKind::Jpeg.mime(), "image/jpeg");
}

#[test]
fn image_entry_from_bytes_hashes_and_thumbnails() {
    let png = tiny_png();
    let entry = clipboard_entry_from_image_bytes("image/png".to_string(), png.clone())
        .expect("image entry should be created");
    match &entry {
        ClipboardEntry::Image {
            mime,
            bytes,
            thumbnail_png,
            ..
        } => {
            assert_eq!(mime, "image/png");
            assert_eq!(bytes, &png);
            let thumb = thumbnail_png.as_ref().expect("thumbnail");
            assert!(image::load_from_memory(thumb).is_ok());
        }
        ClipboardEntry::Text(_) => panic!("expected image"),
    }
    // Same content hashes the same; other content hashes differently.
    let again = clipboard_entry_from_image_bytes("image/png".to_string(), png.clone()).unwrap();
    assert_eq!(entry.fingerprint(), again.fingerprint());
    let mut other = png.clone();
    other.push(0);
    let different = clipboard_entry_from_image_bytes("image/png".to_string(), other).unwrap();
    assert_ne!(entry.fingerprint(), different.fingerprint());
}

#[test]
fn image_entry_rejects_empty_and_oversized_bytes() {
    assert!(clipboard_entry_from_image_bytes("image/png".to_string(), vec![]).is_none());
    assert!(
        clipboard_entry_from_image_bytes("image/png".to_string(), vec![0; MAX_IMAGE_BYTES + 1])
            .is_none()
    );
    assert!(read_clipboard_image("image/png".to_string(), vec![0; MAX_IMAGE_BYTES + 1]).is_none());
    // Undecodable bytes still make an entry, without a thumbnail.
    match clipboard_entry_from_image_bytes("image/png".to_string(), vec![1, 2, 3]) {
        Some(ClipboardEntry::Image { thumbnail_png, .. }) => assert!(thumbnail_png.is_none()),
        other => panic!("expected image entry, got {other:?}"),
    }
}

#[test]
fn thumbnail_falls_back_to_guessed_format() {
    let png = tiny_png();
    assert!(make_thumbnail_png("image/jpeg", &png).is_some());
    assert!(make_thumbnail_png("application/octet-stream", &png).is_some());
    assert!(make_thumbnail_png("image/png", b"not an image").is_none());
}

#[test]
fn text_read_trims_trailing_line_breaks() {
    assert_eq!(
        read_clipboard_text(Some(b"hello\r\n\n".to_vec())).as_deref(),
        Some("hello")
    );
    assert_eq!(
        read_clipboard_text(Some(b"\n a \n".to_vec())).as_deref(),
        Some("\n a ")
    );
    assert_eq!(read_clipboard_text(Some(b"\r\n".to_vec())), None);
    assert_eq!(read_clipboard_text(Some(vec![0xff, 0xfe])), None);
    assert_eq!(read_clipboard_text(None), None);
}

#[test]
fn reading_walks_images_then_uri_list_then_text() {
    let mut step = first_read_step();
    assert!(matches!(step, ReadStep::FetchImage(ImageKind::Png)));
    step = read_clipboard_entry(step, Fetched::Nothing);
    assert!(matches!(step, ReadStep::FetchImage(ImageKind::Jpeg)));
    step = read_clipboard_entry(
        step,
        Fetched::Content {
            mime: "image/jpeg".to_string(),
            bytes: vec![],
        },
    );
    assert!(matches!(step, ReadStep::FetchImage(ImageKind::WebP)));
    step = read_clipboard_entry(step, Fetched::Nothing);
    assert!(matches!(step, ReadStep::FetchUriList));
    step = read_clipboard_entry(
        step,
        Fetched::Content {
            mime: "text/uri-list".to_string(),
            bytes: b"file:///tmp/a%20b.png\n".to_vec(),
        },
    );
    match &step {
        ReadStep::FetchImageFile(path, kind) => {
            assert_eq!(path, "/tmp/a b.png");
            assert_eq!(*kind, ImageKind::Png);
        }
        other => panic!("expected a file to read, got {other:?}"),
    }
    step = read_clipboard_entry(step, Fetched::Nothing);
    assert!(matches!(step, ReadStep::FetchText));
    step = read_clipboard_entry(
        step,
        Fetched::Content {
            mime: "text/plain".to_string(),
            bytes: b"copied\n".to_vec(),
        },
    );
    match step {
        ReadStep::Done(Some(ClipboardEntry::Text(t))) => assert_eq!(t, "copied"),
        other => panic!("expected text entry, got {other:?}"),
    }
}

#[test]
fn reading_stops_at_first_image() {
    let png = tiny_png();
    let step = read_clipboard_entry(
        ReadStep::FetchImage(ImageKind::Png),
        Fetched::Content {
            mime: "image/png".to_string(),
            bytes: png.clone(),
        },
    );
    match step {
        ReadStep::Done(Some(ClipboardEntry::Image { bytes, .. })) => assert_eq!(bytes, png),
        other => panic!("expected image entry, got {other:?}"),
    }
    let none = read_clipboard_entry(ReadStep::FetchText, Fetched::Nothing);
    assert!(matches!(none, ReadStep::Done(None)));
    let bad_list = read_clipboard_entry(
        ReadStep::FetchUriList,
        Fetched::Content {
            mime: "text/uri-list".to_string(),
            bytes: vec![0xff],
        },
    );
    assert!(matches!(bad_list, ReadStep::FetchText));
}

#[test]
fn thumbnail_is_scaled_to_fit_the_square() {
    let big = png_of_size(800, 600);
    let thumb = make_thumbnail_png("image/png", &big).expect("thumbnail");
    let decoded = image::load_from_memory_with_format(&thumb, image::ImageFormat::Png).unwrap();
    assert_eq!((decoded.width(), decoded.height()), (400, 300));
    let tall = png_of_size(100, 900);
    let thumb = make_thumbnail_png("image/png", &tall).expect("thumbnail");
    let decoded = image::load_from_memory(&thumb).unwrap();
    assert_eq!(decoded.height(), 400);
    assert!(decoded.width() <= 45);
}

#[test]
fn image_entry_holds_the_thumbnail_of_its_bytes() {
    let big = png_of_size(640, 480);
    let expected = make_thumbnail_png("image/png", &big);
    assert!(expected.is_some());
    match clipboard_entry_from_image_bytes("image/png".to_string(), big.clone()) {
        Some(ClipboardEntry::Image { thumbnail_png, .. }) => assert_eq!(thumbnail_png, expected),
        other => panic!("expected image entry, got {other:?}"),
    }
}

#[test]
fn file_extensions_follow_std_paths() {
    assert_eq!(file_extension("/tmp/a.png").as_deref(), Some("png"));
    assert_eq!(file_extension("a.tar.gz").as_deref(), Some("gz"));
    assert_eq!(file_extension("/tmp/x.JPG/").as_deref(), Some("JPG"));
    assert_eq!(file_extension("foo.").as_deref(), Some(""));
    assert_eq!(file_extension(".bashrc"), None);
    assert_eq!(file_extension("/tmp/noext"), None);
    assert_eq!(file_extension(""), None);
    assert_eq!(file_extension("/"), None);
    for p in [
        "/tmp/a.png", "a.tar.gz", "/tmp/x.JPG/", "foo.", ".bashrc", "/tmp/noext", "", "/", "..",
        ".", "a/.", "/tmp/a.png/.", "/tmp/a.png//", "x/..", "/.hidden.webp", "dir.d/file",
        "..png", "a..b",
    ] {
        let expected = std::path::Path::new(p)
            .extension()
            .map(|e| e.to_string_lossy().into_owned());
        assert_eq!(file_extension(p), expected, "path {p:?}");
    }
}

#[test]
fn uri_list_without_an_image_file_goes_to_text() {
    let step = read_clipboard_entry(
        ReadStep::FetchUriList,
        Fetched::Content {
            mime: "text/uri-list".to_string(),
            bytes: b"file:///home/me/notes.txt\n".to_vec(),
        },
    );
    assert!(matches!(step, ReadStep::FetchText));
    let step = read_clipboard_entry(
        ReadStep::FetchUriList,
        Fetched::Content {
            mime: "text/uri-list".to_string(),
            bytes: b"file:///home/me/Photo.JPEG\n".to_vec(),
        },
    );
    match &step {
        ReadStep::FetchImageFile(path, kind) => {
            assert_eq!(path, "/home/me/Photo.JPEG");
            assert_eq!(*kind, ImageKind::Jpeg);
        }
        other => panic!("expected a file to read, got {other:?}"),
    }
}

#[test]
fn image_file_entry_takes_the_type_of_its_extension() {
    let png = tiny_png();
    let step = read_clipboard_entry(
        ReadStep::FetchImageFile("/tmp/pic.webp".to_string(), ImageKind::WebP),
        Fetched::Content {
            mime: String::new(),
            bytes: png.clone(),
        },
    );
    match step {
        ReadStep::Done(Some(ClipboardEntry::Image { mime, bytes, .. })) => {
            assert_eq!(mime, "image/webp");
            assert_eq!(bytes, png);
        }
        other => panic!("expected image entry, got {other:?}"),
    }
    let empty = read_clipboard_entry(
        ReadStep::FetchImageFile("/tmp/pic.png".to_string(), ImageKind::Png),
        Fetched::Content {
            mime: String::new(),
            bytes: vec![],
        },
    );
    assert!(matches!(empty, ReadStep::FetchText));
}
