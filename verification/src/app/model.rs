use vstd::prelude::*;
use std::collections::VecDeque;

use crate::clipboard::model::ClipboardEntry;
use crate::history::HistoryItem;

verus! {

/// Which part of a history row has the keyboard or mouse focus.
#[derive(Debug, Clone, Copy, PartialEq, Eq, Structural)]
pub enum FocusPart {
    Entry,
    Pin,
    Remove,
}

/// The state of the applet that its decisions depend on. Windows are named
/// by the numbers that `TogglePopup` and `ToggleViaIpc` hand in.
#[derive(Debug)]
pub struct AppModel {
    /// The open popup window, if any.
    pub popup: Option<u64>,
    /// Whether the open popup is a layer surface (opened through the toggle signal).
    pub popup_is_layer_surface: bool,
    /// Latest clipboard entries, newest first (with pinned items kept at the top).
    pub history: VecDeque<HistoryItem>,
    /// Index of the history entry the mouse or the keyboard selection is on.
    pub hovered_index: Option<usize>,
    /// The part of a row the mouse is on.
    pub hovered_focus: Option<(usize, FocusPart)>,
    /// Whether the history list is scrolled to the bottom.
    pub at_scroll_bottom: bool,
    /// Keyboard focus within the history: the row and its part.
    pub keyboard_focus: Option<(usize, FocusPart)>,
    /// The search text that filters the visible history.
    pub search_query: String,
}

/// The mathematical value of an [`AppModel`].
#[verifier::ext_equal]
pub struct AppView {
    pub popup: Option<u64>,
    pub popup_is_layer_surface: bool,
    pub history: Seq<HistoryItem>,
    pub hovered_index: Option<usize>,
    pub hovered_focus: Option<(usize, FocusPart)>,
    pub at_scroll_bottom: bool,
    pub keyboard_focus: Option<(usize, FocusPart)>,
    pub search_query: Seq<char>,
}

impl View for AppModel {
    type V = AppView;

    open spec fn view(&self) -> AppView {
        AppView {
            popup: self.popup,
            popup_is_layer_surface: self.popup_is_layer_surface,
            history: self.history@,
            hovered_index: self.hovered_index,
            hovered_focus: self.hovered_focus,
            at_scroll_bottom: self.at_scroll_bottom,
            keyboard_focus: self.keyboard_focus,
            search_query: self.search_query@,
        }
    }
}

/// The state of a freshly started applet: no popup, empty history, no focus.
pub open spec fn initial_view() -> AppView {
    AppView {
        popup: None,
        popup_is_layer_surface: false,
        history: Seq::empty(),
        hovered_index: None,
        hovered_focus: None,
        at_scroll_bottom: false,
        keyboard_focus: None,
        search_query: Seq::empty(),
    }
}

impl Default for AppModel {
    fn default() -> (r: AppModel)
        ensures
            r@ == initial_view(),
    {
        AppModel {
            popup: None,
            popup_is_layer_surface: false,
            history: VecDeque::new(),
            hovered_index: None,
            hovered_focus: None,
            at_scroll_bottom: false,
            keyboard_focus: None,
            search_query: String::new(),
        }
    }
}

/// The events the applet reacts to.
#[derive(Debug)]
pub enum Message {
    /// Open or close the popup from the panel button; the number names the
    /// popup to open when none is open.
    TogglePopup(u64),
    /// Open or close the popup from the external toggle signal; the number
    /// names the layer surface to open when none is open.
    ToggleViaIpc(u64),
    /// The window with this number was closed.
    PopupClosed(u64),
    /// The window with this number lost the focus.
    WindowUnfocused(u64),
    /// The clipboard shows a new content.
    ClipboardChanged(ClipboardEntry),
    TogglePin(usize),
    RemoveHistory(usize),
    ClearHistory,
    CopyFromHistory(usize),
    HoverEntry(Option<(usize, FocusPart)>),
    /// The history list was scrolled; whether it now shows its bottom.
    HistoryScrolled(bool),
    /// The search text changed.
    SearchChanged(String),
    MoveSelectionUp,
    MoveSelectionDown,
    MoveFocusLeft,
    MoveFocusRight,
    /// Activate the selected entry or the focused control (Enter).
    ActivateSelection,
}

/// What the surrounding program has to do after an update.
#[derive(Debug, Clone, Copy, PartialEq, Eq, Structural)]
pub enum Action {
    /// Nothing to do.
    Nothing,
    /// Scroll the history so that this row is visible.
    ScrollIntoView(usize),
    /// Put the content of the history item at this index on the clipboard.
    Copy(usize),
    /// Open a popup window with this number.
    OpenPopup(u64),
    /// Open a layer surface with this number.
    OpenLayerSurface(u64),
    /// Close the popup window with this number.
    DestroyPopup(u64),
    /// Close the layer surface with this number; forget the scroll viewport
    /// when `forget_viewport` holds.
    DestroyLayerSurface { id: u64, forget_viewport: bool },
    /// Forget the last observed scroll viewport.
    ForgetViewport,
}

} // verus!
