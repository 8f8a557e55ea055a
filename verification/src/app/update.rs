use vstd::prelude::*;

use crate::app::model::{Action, AppModel, AppView, FocusPart, Message};
use crate::app::view::{filtered, filtered_indices};
use crate::history::{
    after_clipboard_change, record_clipboard_entry, toggle_pin, toggled, HistoryItem,
};

verus! {

/// The first position at or after `i` in `v` that holds `x`, or -1.
pub open spec fn position_from(v: Seq<usize>, x: usize, i: int) -> int
    decreases v.len() - i,
{
    if i < 0 || i >= v.len() {
        -1
    } else if v[i] == x {
        i
    } else {
        position_from(v, x, i + 1)
    }
}

/// Where the hovered row stands among the visible rows `v`, or -1.
pub open spec fn hovered_position(v: Seq<usize>, hovered: Option<usize>) -> int {
    match hovered {
        Some(h) => position_from(v, h, 0),
        None => -1,
    }
}

/// The visible row after the hovered one, wrapping around; the first one
/// when the hovered row is not visible.
pub open spec fn selection_below(v: Seq<usize>, hovered: Option<usize>) -> usize {
    let p = hovered_position(v, hovered);
    if p >= 0 {
        v[(p + 1) % (v.len() as int)]
    } else {
        v[0]
    }
}

/// The visible row before the hovered one, wrapping around; the last one
/// when the hovered row is not visible.
pub open spec fn selection_above(v: Seq<usize>, hovered: Option<usize>) -> usize {
    let p = hovered_position(v, hovered);
    if p > 0 {
        v[p - 1]
    } else {
        v.last()
    }
}

/// The next part of a row to the right: entry, pin, remove, and round again.
pub open spec fn part_right(p: FocusPart) -> FocusPart {
    match p {
        FocusPart::Entry => FocusPart::Pin,
        FocusPart::Pin => FocusPart::Remove,
        FocusPart::Remove => FocusPart::Entry,
    }
}

/// The next part of a row to the left: entry, remove, pin, and round again.
pub open spec fn part_left(p: FocusPart) -> FocusPart {
    match p {
        FocusPart::Entry => FocusPart::Remove,
        FocusPart::Pin => FocusPart::Entry,
        FocusPart::Remove => FocusPart::Pin,
    }
}

/// The keyboard focus after moving it left or right: on the hovered row it
/// cycles through the parts; otherwise it jumps to the hovered row's entry,
/// and stays where it is when no row is hovered.
pub open spec fn focus_moved(
    focus: Option<(usize, FocusPart)>,
    hovered: Option<usize>,
    right: bool,
) -> Option<(usize, FocusPart)> {
    match focus {
        Some((idx, part)) => {
            if hovered != Some(idx) {
                match hovered {
                    Some(h) => Some((h, FocusPart::Entry)),
                    None => focus,
                }
            } else {
                Some((idx, if right { part_right(part) } else { part_left(part) }))
            }
        },
        None => match hovered {
            Some(h) => Some((h, FocusPart::Entry)),
            None => None,
        },
    }
}

/// `h` without the item at `i`, or `h` when there is none.
pub open spec fn removed_at(h: Seq<HistoryItem>, i: int) -> Seq<HistoryItem> {
    if 0 <= i < h.len() {
        h.remove(i)
    } else {
        h
    }
}

/// Copy the item at `i` when there is one.
pub open spec fn copy_if_present(h: Seq<HistoryItem>, i: usize) -> Action {
    if i < h.len() {
        Action::Copy(i)
    } else {
        Action::Nothing
    }
}

/// The state with row `n` selected by the keyboard.
pub open spec fn selected(s: AppView, n: usize) -> AppView {
    AppView {
        hovered_index: Some(n),
        hovered_focus: None,
        keyboard_focus: Some((n, FocusPart::Entry)),
        at_scroll_bottom: false,
        ..s
    }
}

/// The state with the popup closed and the search cleared.
pub open spec fn popup_dropped(s: AppView) -> AppView {
    AppView { popup: None, popup_is_layer_surface: false, search_query: Seq::empty(), ..s }
}

/// The state after the popup window went away: closed, search cleared, no
/// hovered row, not at the bottom.
pub open spec fn popup_gone(s: AppView) -> AppView {
    AppView { hovered_index: None, at_scroll_bottom: false, ..popup_dropped(s) }
}

/// The action that closes the open popup `p`.
pub open spec fn close_action(s: AppView, p: u64) -> Action {
    if s.popup_is_layer_surface {
        Action::DestroyLayerSurface { id: p, forget_viewport: false }
    } else {
        Action::DestroyPopup(p)
    }
}

/// What Enter does: with a keyboard focus, copy the focused entry, toggle its
/// pin or remove it; otherwise copy the hovered entry.
pub open spec fn activated(s: AppView) -> (AppView, Action) {
    match s.keyboard_focus {
        Some((idx, part)) => match part {
            FocusPart::Entry => (s, copy_if_present(s.history, idx)),
            FocusPart::Pin => (AppView { history: toggled(s.history, idx as int), ..s }, Action::Nothing),
            FocusPart::Remove => (
                AppView { history: removed_at(s.history, idx as int), ..s },
                Action::Nothing,
            ),
        },
        None => match s.hovered_index {
            Some(idx) => (s, copy_if_present(s.history, idx)),
            None => (s, Action::Nothing),
        },
    }
}

/// The state and the action that follow state `s` and message `m`.
pub open spec fn next(s: AppView, m: Message) -> (AppView, Action) {
    match m {
        Message::ClipboardChanged(e) => (
            AppView { history: after_clipboard_change(s.history, e), ..s },
            Action::Nothing,
        ),
        Message::TogglePin(i) => (
            AppView { history: toggled(s.history, i as int), ..s },
            Action::Nothing,
        ),
        Message::CopyFromHistory(i) => (s, copy_if_present(s.history, i)),
        Message::RemoveHistory(i) => (
            AppView { history: removed_at(s.history, i as int), ..s },
            Action::Nothing,
        ),
        Message::ClearHistory => (AppView { history: Seq::empty(), ..s }, Action::Nothing),
        Message::HoverEntry(opt) => match opt {
            Some((idx, part)) => (
                AppView {
                    hovered_index: Some(idx),
                    hovered_focus: Some((idx, part)),
                    keyboard_focus: None,
                    ..s
                },
                Action::Nothing,
            ),
            None => (AppView { hovered_index: None, hovered_focus: None, ..s }, Action::Nothing),
        },
        Message::HistoryScrolled(at_bottom) => (
            AppView { at_scroll_bottom: at_bottom, ..s },
            Action::Nothing,
        ),
        Message::MoveSelectionUp => {
            let v = filtered(s.history, s.search_query);
            if v.len() == 0 {
                (s, Action::Nothing)
            } else {
                let n = selection_above(v, s.hovered_index);
                (selected(s, n), Action::ScrollIntoView(n))
            }
        },
        Message::MoveSelectionDown => {
            let v = filtered(s.history, s.search_query);
            if v.len() == 0 {
                (s, Action::Nothing)
            } else {
                let n = selection_below(v, s.hovered_index);
                (selected(s, n), Action::ScrollIntoView(n))
            }
        },
        Message::MoveFocusLeft => (
            AppView { keyboard_focus: focus_moved(s.keyboard_focus, s.hovered_index, false), ..s },
            Action::Nothing,
        ),
        Message::MoveFocusRight => (
            AppView { keyboard_focus: focus_moved(s.keyboard_focus, s.hovered_index, true), ..s },
            Action::Nothing,
        ),
        Message::ActivateSelection => activated(s),
        Message::SearchChanged(q) => (
            AppView {
                search_query: q@,
                hovered_index: None,
                hovered_focus: None,
                keyboard_focus: None,
                ..s
            },
            Action::Nothing,
        ),
        Message::TogglePopup(id) => match s.popup {
            Some(p) => (popup_dropped(s), close_action(s, p)),
            None => (
                AppView { popup: Some(id), popup_is_layer_surface: false, ..s },
                Action::OpenPopup(id),
            ),
        },
        Message::ToggleViaIpc(id) => match s.popup {
            Some(p) => (popup_dropped(s), close_action(s, p)),
            None => (
                AppView { popup: Some(id), popup_is_layer_surface: true, ..s },
                Action::OpenLayerSurface(id),
            ),
        },
        Message::WindowUnfocused(id) => {
            if s.popup == Some(id) && s.popup_is_layer_surface {
                (popup_gone(s), Action::DestroyLayerSurface { id, forget_viewport: true })
            } else {
                (s, Action::Nothing)
            }
        },
        Message::PopupClosed(id) => {
            if s.popup == Some(id) {
                (popup_gone(s), Action::ForgetViewport)
            } else {
                (s, Action::Nothing)
            }
        },
    }
}

/// The position of `x` in `v`, if any.
fn position_in(v: &Vec<usize>, x: usize) -> (r: Option<usize>)
    ensures
        match r {
            Some(p) => p == position_from(v@, x, 0) && p < v@.len(),
            None => position_from(v@, x, 0) < 0,
        },
{
    let len = v.len();
    let mut i: usize = 0;
    while i < len
        invariant
            len == v@.len(),
            i <= len,
            position_from(v@, x, i as int) == position_from(v@, x, 0),
        decreases len - i,
    {
        if v[i] == x {
            return Some(i);
        }
        i = i + 1;
    }
    None
}

/// Where the hovered row stands among the visible ones.
fn hovered_pos(visible: &Vec<usize>, hovered: Option<usize>) -> (r: Option<usize>)
    ensures
        match r {
            Some(p) => p == hovered_position(visible@, hovered) && p < visible@.len(),
            None => hovered_position(visible@, hovered) < 0,
        },
{
    match hovered {
        Some(h) => position_in(visible, h),
        None => None,
    }
}

/// Moves the keyboard focus left or right (see [`focus_moved`]).
fn move_focus(app: &mut AppModel, right: bool)
    ensures
        final(app)@ == (AppView {
            keyboard_focus: focus_moved(old(app)@.keyboard_focus, old(app)@.hovered_index, right),
            ..old(app)@
        }),
{
    let new_focus = match app.keyboard_focus {
        Some((idx, part)) => {
            let on_hovered = match app.hovered_index {
                Some(h) => h == idx,
                None => false,
            };
            if !on_hovered {
                match app.hovered_index {
                    Some(h) => Some((h, FocusPart::Entry)),
                    None => app.keyboard_focus,
                }
            } else {
                let new_part = if right {
                    match part {
                        FocusPart::Entry => FocusPart::Pin,
                        FocusPart::Pin => FocusPart::Remove,
                        FocusPart::Remove => FocusPart::Entry,
                    }
                } else {
                    match part {
                        FocusPart::Entry => FocusPart::Remove,
                        FocusPart::Pin => FocusPart::Entry,
                        FocusPart::Remove => FocusPart::Pin,
                    }
                };
                Some((idx, new_part))
            }
        },
        None => match app.hovered_index {
            Some(h) => Some((h, FocusPart::Entry)),
            None => None,
        },
    };
    app.keyboard_focus = new_focus;
}

/// Selects row `n` with the keyboard.
fn select_row(app: &mut AppModel, n: usize) -> (action: Action)
    ensures
        final(app)@ == selected(old(app)@, n),
        action == Action::ScrollIntoView(n),
{
    app.hovered_index = Some(n);
    app.hovered_focus = None;
    app.keyboard_focus = Some((n, FocusPart::Entry));
    app.at_scroll_bottom = false;
    Action::ScrollIntoView(n)
}

/// Closes the open popup `p` and clears the search.
fn drop_popup(app: &mut AppModel, p: u64) -> (action: Action)
    ensures
        final(app)@ == popup_dropped(old(app)@),
        action == close_action(old(app)@, p),
{
    let is_layer = app.popup_is_layer_surface;
    app.popup = None;
    app.popup_is_layer_surface = false;
    app.search_query = String::new();
    if is_layer {
        Action::DestroyLayerSurface { id: p, forget_viewport: false }
    } else {
        Action::DestroyPopup(p)
    }
}

/// Forgets the popup after its window went away.
fn forget_popup(app: &mut AppModel)
    ensures
        final(app)@ == popup_gone(old(app)@),
{
    app.popup = None;
    app.popup_is_layer_surface = false;
    app.search_query = String::new();
    app.hovered_index = None;
    app.at_scroll_bottom = false;
}

/// The action that copies the item at `i`, when there is one.
fn copy_action(app: &AppModel, i: usize) -> (action: Action)
    ensures
        action == copy_if_present(app.history@, i),
{
    if i < app.history.len() {
        Action::Copy(i)
    } else {
        Action::Nothing
    }
}

/// Applies one message to the applet's state and says what to do next
/// (see [`next`]).
pub fn update(app: &mut AppModel, message: Message) -> (action: Action)
    ensures
        final(app)@ == next(old(app)@, message).0,
        action == next(old(app)@, message).1,
{
    match message {
        Message::ClipboardChanged(entry) => {
            record_clipboard_entry(&mut app.history, entry);
            Action::Nothing
        },
        Message::TogglePin(index) => {
            toggle_pin(&mut app.history, index);
            Action::Nothing
        },
        Message::CopyFromHistory(index) => copy_action(app, index),
        Message::RemoveHistory(index) => {
            let _ = app.history.remove(index);
            Action::Nothing
        },
        Message::ClearHistory => {
            app.history.clear();
            Action::Nothing
        },
        Message::HoverEntry(opt) => {
            match opt {
                Some((idx, part)) => {
                    app.hovered_index = Some(idx);
                    app.hovered_focus = Some((idx, part));
                    app.keyboard_focus = None;
                },
                None => {
                    app.hovered_index = None;
                    app.hovered_focus = None;
                },
            }
            Action::Nothing
        },
        Message::HistoryScrolled(at_bottom) => {
            app.at_scroll_bottom = at_bottom;
            Action::Nothing
        },
        Message::MoveSelectionUp => {
            let visible = filtered_indices(app);
            if visible.len() == 0 {
                return Action::Nothing;
            }
            let new_idx = match hovered_pos(&visible, app.hovered_index) {
                Some(pos) => {
                    if pos == 0 {
                        visible[visible.len() - 1]
                    } else {
                        visible[pos - 1]
                    }
                },
                None => visible[visible.len() - 1],
            };
            select_row(app, new_idx)
        },
        Message::MoveSelectionDown => {
            let visible = filtered_indices(app);
            if visible.len() == 0 {
                return Action::Nothing;
            }
            let new_idx = match hovered_pos(&visible, app.hovered_index) {
                Some(pos) => visible[(pos + 1) % visible.len()],
                None => visible[0],
            };
            select_row(app, new_idx)
        },
        Message::MoveFocusLeft => {
            move_focus(app, false);
            Action::Nothing
        },
        Message::MoveFocusRight => {
            move_focus(app, true);
            Action::Nothing
        },
        Message::ActivateSelection => {
            match app.keyboard_focus {
                Some((idx, part)) => match part {
                    FocusPart::Entry => copy_action(app, idx),
                    FocusPart::Pin => {
                        toggle_pin(&mut app.history, idx);
                        Action::Nothing
                    },
                    FocusPart::Remove => {
                        let _ = app.history.remove(idx);
                        Action::Nothing
                    },
                },
                None => match app.hovered_index {
                    Some(idx) => copy_action(app, idx),
                    None => Action::Nothing,
                },
            }
        },
        Message::SearchChanged(query) => {
            app.search_query = query;
            app.hovered_index = None;
            app.hovered_focus = None;
            app.keyboard_focus = None;
            Action::Nothing
        },
        Message::TogglePopup(id) => match app.popup {
            Some(p) => drop_popup(app, p),
            None => {
                app.popup = Some(id);
                app.popup_is_layer_surface = false;
                Action::OpenPopup(id)
            },
        },
        Message::ToggleViaIpc(id) => match app.popup {
            Some(p) => drop_popup(app, p),
            None => {
                app.popup = Some(id);
                app.popup_is_layer_surface = true;
                Action::OpenLayerSurface(id)
            },
        },
        Message::WindowUnfocused(id) => {
            let is_current = match app.popup {
                Some(p) => p == id,
                None => false,
            };
            if is_current && app.popup_is_layer_surface {
                forget_popup(app);
                Action::DestroyLayerSurface { id, forget_viewport: true }
            } else {
                Action::Nothing
            }
        },
        Message::PopupClosed(id) => {
            let is_current = match app.popup {
                Some(p) => p == id,
                None => false,
            };
            if is_current {
                forget_popup(app);
                Action::ForgetViewport
            } else {
                Action::Nothing
            }
        },
    }
}

} // verus!
