use clippy_land::app::model::{AppModel, FocusPart};
use clippy_land::app::view::{
    divider_before, filtered_indices, image_size_kb, part_highlighted, popup_content,
    shows_delete_all, shows_image_caption, shows_search_bar, summarize_one_line, PopupContent,
};
use clippy_land::clipboard::ClipboardEntry;
use clippy_land::history::HistoryItem;

#[test]
fn summarizes_first_nonempty_line() {
    let input = "\n   \n  hello world  \nsecond line";
    assert_eq!(summarize_one_line(input), "hello world");
}

#[test]
fn truncates_long_lines_with_ellipsis() {
    let input = "abcdefghijklmnopqrstuvwxyzabcdefghijklmnopqrstuvwxyzabcdefghijklmnop";
    assert_eq!(
        summarize_one_line(input),
        "abcdefghijklmnopqrstuvwxyzabcdefghijklmnopqrstuvwxyzabcdefg…"
    );
}

#[test]
fn returns_empty_for_blank_text() {
    assert_eq!(summarize_one_line("\n  \n\t"), "");
}

#[test]
fn summary_keeps_a_line_of_exactly_sixty_characters() {
    let line: String = std::iter::repeat('x').take(60).collect();
    assert_eq!(summarize_one_line(&format!("  {line}\r\nmore")), line);
    let long: String = std::iter::repeat('é').take(61).collect();
    let expected: String = std::iter::repeat('é').take(59).chain(std::iter::once('…')).collect();
    assert_eq!(summarize_one_line(&long), expected);
}

// ── filtered_indices ─────────────────────────────────────────────────────────

fn push_text(app: &mut AppModel, text: &str) {
    app.history.push_back(HistoryItem {
        entry: ClipboardEntry::Text(text.to_string()),
        pinned: false,
    });
}

fn push_image(app: &mut AppModel, mime: &str) {
    app.history.push_back(HistoryItem {
        entry: ClipboardEntry::Image {
            mime: mime.to_string(),
            bytes: vec![],
            hash: 0,
            thumbnail_png: None,
        },
        pinned: false,
    });
}

#[test]
fn empty_query_returns_all_indices() {
    let mut app = AppModel::default();
    push_text(&mut app, "alpha");
    push_text(&mut app, "beta");
    push_text(&mut app, "gamma");

    let indices = filtered_indices(&app);

    assert_eq!(indices, vec![0, 1, 2]);
}

#[test]
fn query_filters_text_case_insensitively() {
    let mut app = AppModel::default();
    push_text(&mut app, "Hello World"); // idx 0 – matches "hello"
    push_text(&mut app, "HELLO again"); // idx 1 – matches "hello"
    push_text(&mut app, "goodbye"); // idx 2 – no match
    app.search_query = "hello".into();

    let indices = filtered_indices(&app);

    assert_eq!(indices, vec![0, 1]);
}

#[test]
fn query_filters_image_by_mime() {
    let mut app = AppModel::default();
    push_image(&mut app, "image/png"); // idx 0 – matches "png"
    push_image(&mut app, "image/jpeg"); // idx 1 – no match
    push_text(&mut app, "png file"); // idx 2 – text also matches "png"
    app.search_query = "png".into();

    let indices = filtered_indices(&app);

    assert_eq!(indices, vec![0, 2]);
}

#[test]
fn query_with_no_matches_returns_empty() {
    let mut app = AppModel::default();
    push_text(&mut app, "apple");
    push_text(&mut app, "banana");
    app.search_query = "zzz".into();

    let indices = filtered_indices(&app);

    assert!(indices.is_empty());
}

#[test]
fn filtered_indices_empty_history_returns_empty() {
    let app = AppModel::default();
    // No search query either
    let indices = filtered_indices(&app);
    assert!(indices.is_empty());
}

#[test]
fn uppercase_query_matches_lowercase_text_beyond_ascii() {
    let mut app = AppModel::default();
    push_text(&mut app, "ÉCOLE");
    push_text(&mut app, "garage");
    app.search_query = "éc".into();
    assert_eq!(filtered_indices(&app), vec![0]);
}

// ── popup layout decisions ───────────────────────────────────────────────────

#[test]
fn popup_content_for_empty_history_no_results_and_rows() {
    let mut app = AppModel::default();
    assert!(matches!(popup_content(&app), PopupContent::EmptyHistory));
    assert!(!shows_search_bar(&app));
    assert!(!shows_delete_all(&app));

    push_text(&mut app, "one");
    assert!(shows_search_bar(&app));
    assert!(shows_delete_all(&app));
    app.search_query = "two".into();
    assert!(matches!(popup_content(&app), PopupContent::NoResults));
    assert!(!shows_delete_all(&app));

    app.search_query = "ON".into();
    match popup_content(&app) {
        PopupContent::Rows(rows) => assert_eq!(rows, vec![0]),
        other => panic!("expected rows, got {other:?}"),
    }
}

#[test]
fn divider_sits_between_pins_and_others() {
    let mut app = AppModel::default();
    app.history.push_back(HistoryItem {
        entry: ClipboardEntry::Text("pinned".to_string()),
        pinned: true,
    });
    push_text(&mut app, "other");
    assert!(!divider_before(&app, 0));
    assert!(divider_before(&app, 1));
    app.search_query = "o".into();
    assert!(!divider_before(&app, 1));
}

#[test]
fn highlight_follows_keyboard_or_mouse() {
    let mut app = AppModel::default();
    push_text(&mut app, "one");
    app.keyboard_focus = Some((0, FocusPart::Pin));
    app.hovered_focus = Some((0, FocusPart::Remove));
    assert!(part_highlighted(&app, 0, FocusPart::Pin));
    assert!(part_highlighted(&app, 0, FocusPart::Remove));
    assert!(!part_highlighted(&app, 0, FocusPart::Entry));
    assert!(!part_highlighted(&app, 1, FocusPart::Pin));
    app.hovered_index = Some(0);
    assert!(shows_image_caption(&app, 0));
    assert!(!shows_image_caption(&app, 1));
}

#[test]
fn image_size_rounds_up_to_kilobytes() {
    assert_eq!(image_size_kb(0), 0);
    assert_eq!(image_size_kb(1), 1);
    assert_eq!(image_size_kb(1024), 1);
    assert_eq!(image_size_kb(1025), 2);
    assert_eq!(image_size_kb(usize::MAX), usize::MAX / 1024);
}
