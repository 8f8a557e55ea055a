use clippy_land::app::model::{Action, AppModel, FocusPart, Message};
use clippy_land::app::update::update;
use clippy_land::app::view::{filtered_indices, summarize_one_line};
use clippy_land::clipboard::uri::percent_decode_to_path;
use clippy_land::clipboard::ClipboardEntry;
use clippy_land::history::{HistoryItem, MAX_HISTORY, MAX_PINNED};

fn text(t: &str) -> ClipboardEntry {
    ClipboardEntry::Text(t.to_string())
}

fn image(mime: &str, len: usize, hash: u64) -> ClipboardEntry {
    ClipboardEntry::Image {
        mime: mime.to_string(),
        bytes: vec![7; len],
        hash,
        thumbnail_png: None,
    }
}

fn assert_history_invariant(app: &AppModel) {
    let h: Vec<&HistoryItem> = app.history.iter().collect();
    assert!(h.len() <= MAX_HISTORY);
    assert!(h.iter().filter(|it| it.pinned).count() <= MAX_PINNED);
    for i in 0..h.len() {
        for j in i + 1..h.len() {
            assert!(!h[j].pinned || h[i].pinned, "pins must stay in front");
            assert!(h[i].entry != h[j].entry, "no duplicate entries");
        }
    }
}

#[test]
fn every_message_keeps_the_history_invariant() {
    let mut app = AppModel::default();
    for round in 0..80usize {
        let message = match round % 8 {
            0 | 1 | 2 => Message::ClipboardChanged(text(&format!("entry number {}", round % 37))),
            3 => Message::TogglePin(round % 9),
            4 => Message::ClipboardChanged(image("image/png", round % 5 + 1, (round % 3) as u64)),
            5 => Message::TogglePin(0),
            6 => {
                app.keyboard_focus = Some((round % 4, FocusPart::Pin));
                Message::ActivateSelection
            }
            _ => Message::RemoveHistory(round % 13),
        };
        let _ = update(&mut app, message);
        assert_history_invariant(&app);
    }
    let _ = update(&mut app, Message::ClearHistory);
    assert!(app.history.is_empty());
}

#[test]
fn new_entry_is_recorded_once_with_its_pin_state() {
    let mut app = AppModel::default();
    let _ = update(&mut app, Message::ClipboardChanged(text("first entry")));
    let _ = update(&mut app, Message::ClipboardChanged(text("second entry")));
    let _ = update(&mut app, Message::TogglePin(1));
    let _ = update(&mut app, Message::ClipboardChanged(text("third entry")));
    let _ = update(&mut app, Message::ClipboardChanged(text("first entry")));
    let matching: Vec<&HistoryItem> = app
        .history
        .iter()
        .filter(|it| it.entry == text("first entry"))
        .collect();
    assert_eq!(matching.len(), 1);
    assert!(matching[0].pinned);
}

#[test]
fn search_results_are_in_order() {
    let mut app = AppModel::default();
    for t in ["b1", "a", "b2", "c", "B3"] {
        app.history.push_back(HistoryItem {
            entry: text(t),
            pinned: false,
        });
    }
    app.search_query = "b".into();
    assert_eq!(filtered_indices(&app), vec![0, 2, 4]);
}

#[test]
fn selection_round_trips_and_lands_on_shown_rows() {
    let mut app = AppModel::default();
    for t in ["apple", "banana", "apricot", "avocado"] {
        app.history.push_back(HistoryItem {
            entry: text(t),
            pinned: false,
        });
    }
    app.search_query = "a".into();
    for start in [0usize, 1, 2, 3] {
        app.hovered_index = Some(start);
        let _ = update(&mut app, Message::MoveSelectionDown);
        let down = app.hovered_index.unwrap();
        assert!(filtered_indices(&app).contains(&down));
        let _ = update(&mut app, Message::MoveSelectionUp);
        assert_eq!(app.hovered_index, Some(start));
        let _ = update(&mut app, Message::MoveSelectionUp);
        let _ = update(&mut app, Message::MoveSelectionDown);
        assert_eq!(app.hovered_index, Some(start));
    }
    app.search_query = "p".into(); // shows 0 and 2 only
    app.hovered_index = Some(1);
    let action = update(&mut app, Message::MoveSelectionDown);
    assert_eq!(app.hovered_index, Some(0));
    assert_eq!(action, Action::ScrollIntoView(0));
}

#[test]
fn focus_right_then_left_restores_focus() {
    for part in [FocusPart::Entry, FocusPart::Pin, FocusPart::Remove] {
        let mut app = AppModel::default();
        app.hovered_index = Some(2);
        app.keyboard_focus = Some((2, part));
        let _ = update(&mut app, Message::MoveFocusRight);
        let _ = update(&mut app, Message::MoveFocusLeft);
        assert_eq!(app.keyboard_focus, Some((2, part)));
    }
}

#[test]
fn fingerprints_identify_matching_entries() {
    let entries = [
        text("a"),
        text("b"),
        image("image/png", 3, 1),
        image("image/png", 3, 2),
        image("image/png", 4, 1),
        image("image/jpeg", 3, 1),
    ];
    for a in &entries {
        for b in &entries {
            assert_eq!(a.fingerprint() == b.fingerprint(), a == b);
        }
    }
}

#[test]
fn summaries_are_single_short_lines() {
    let long = "word ".repeat(40);
    for input in ["one\ntwo", "  \n\n x \n", long.as_str(), ""] {
        let s = summarize_one_line(input);
        assert!(s.chars().count() <= 60);
        assert!(!s.contains('\n'));
    }
}

#[test]
fn paths_without_escapes_decode_to_themselves() {
    for p in ["/tmp/a b.png", "relative/x", "", "/ünïcode/ok"] {
        assert_eq!(percent_decode_to_path(p).as_deref(), Some(p));
    }
}

#[test]
fn events_for_other_windows_change_nothing() {
    let mut app = AppModel::default();
    let _ = update(&mut app, Message::ToggleViaIpc(10));
    app.search_query = "kept".into();
    assert_eq!(update(&mut app, Message::PopupClosed(11)), Action::Nothing);
    assert_eq!(update(&mut app, Message::WindowUnfocused(11)), Action::Nothing);
    assert_eq!(app.popup, Some(10));
    assert_eq!(app.search_query, "kept");
}

fn history_state(app: &AppModel) -> Vec<(String, bool)> {
    app.history
        .iter()
        .map(|it| match &it.entry {
            ClipboardEntry::Text(t) => (t.clone(), it.pinned),
            ClipboardEntry::Image { mime, .. } => (mime.clone(), it.pinned),
        })
        .collect()
}

fn st(items: &[(&str, bool)]) -> Vec<(String, bool)> {
    items.iter().map(|(t, p)| (t.to_string(), *p)).collect()
}

#[test]
fn new_content_lands_after_the_pins_and_keeps_the_order() {
    let mut app = AppModel::default();
    for t in ["one", "two", "three", "four"] {
        let _ = update(&mut app, Message::ClipboardChanged(text(t)));
    }
    let _ = update(&mut app, Message::TogglePin(2));
    let _ = update(&mut app, Message::TogglePin(3));
    assert_eq!(
        history_state(&app),
        st(&[("two", true), ("one", true), ("four", false), ("three", false)])
    );
    // An unpinned match goes first after the pins; the others keep their order.
    let _ = update(&mut app, Message::ClipboardChanged(text("three")));
    assert_eq!(
        history_state(&app),
        st(&[("two", true), ("one", true), ("three", false), ("four", false)])
    );
    let _ = update(&mut app, Message::TogglePin(3));
    assert_eq!(
        history_state(&app),
        st(&[("two", true), ("one", true), ("four", true), ("three", false)])
    );
    // A pinned match stays pinned and goes last among the pins.
    let _ = update(&mut app, Message::ClipboardChanged(text("one")));
    assert_eq!(
        history_state(&app),
        st(&[("two", true), ("four", true), ("one", true), ("three", false)])
    );
    // A content never seen goes first after the pins.
    let _ = update(&mut app, Message::ClipboardChanged(text("five")));
    assert_eq!(
        history_state(&app),
        st(&[("two", true), ("four", true), ("one", true), ("five", false), ("three", false)])
    );
}

#[test]
fn full_history_drops_only_its_last_unpinned_item() {
    let mut app = AppModel::default();
    for i in 0..MAX_HISTORY {
        let _ = update(&mut app, Message::ClipboardChanged(text(&format!("item {i}"))));
    }
    let _ = update(&mut app, Message::TogglePin(MAX_HISTORY - 1));
    let before = history_state(&app);
    assert_eq!(before[0], ("item 0".to_string(), true));
    let _ = update(&mut app, Message::ClipboardChanged(text("newest")));
    let after = history_state(&app);
    assert_eq!(after.len(), MAX_HISTORY);
    assert_eq!(after[0], ("item 0".to_string(), true));
    assert_eq!(after[1], ("newest".to_string(), false));
    assert_eq!(&after[2..], &before[1..MAX_HISTORY - 1]);
}

#[test]
fn toggling_a_pin_moves_only_that_item() {
    let mut app = AppModel::default();
    for t in ["a", "b", "c", "d"] {
        let _ = update(&mut app, Message::ClipboardChanged(text(t)));
    }
    assert_eq!(
        history_state(&app),
        st(&[("d", false), ("c", false), ("b", false), ("a", false)])
    );
    let _ = update(&mut app, Message::TogglePin(2));
    assert_eq!(
        history_state(&app),
        st(&[("b", true), ("d", false), ("c", false), ("a", false)])
    );
    let _ = update(&mut app, Message::TogglePin(3));
    assert_eq!(
        history_state(&app),
        st(&[("b", true), ("a", true), ("d", false), ("c", false)])
    );
    // Unpinning puts the item first after the remaining pins.
    let _ = update(&mut app, Message::TogglePin(0));
    assert_eq!(
        history_state(&app),
        st(&[("a", true), ("b", false), ("d", false), ("c", false)])
    );
}

#[test]
fn pin_limit_leaves_the_history_unchanged() {
    let mut app = AppModel::default();
    for i in 0..(MAX_PINNED + 2) {
        let _ = update(&mut app, Message::ClipboardChanged(text(&format!("p{i}"))));
    }
    for _ in 0..MAX_PINNED {
        let last = app.history.len() - 1;
        let _ = update(&mut app, Message::TogglePin(last));
    }
    let before = history_state(&app);
    assert_eq!(before.iter().filter(|(_, p)| *p).count(), MAX_PINNED);
    let _ = update(&mut app, Message::TogglePin(MAX_PINNED + 1));
    assert_eq!(history_state(&app), before);
}
