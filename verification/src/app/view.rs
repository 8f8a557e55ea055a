use vstd::prelude::*;

use crate::app::model::{AppModel, FocusPart};
use crate::clipboard::model::{ClipboardEntry, EntryView};
use crate::history::{count_pinned, pinned_count, HistoryItem};
use crate::text::{
    chars_of, contains_chars, contains_seq, find_line_end, lemma_line_end_range, line_end,
    slice_range, string_from_chars, to_lowercase, trim, trim_bounds, unicode_lowercase,
};

verus! {

/// The most characters a one-line summary shows.
pub const SUMMARY_MAX_CHARS: usize = 60;

/// The text that the search looks into: a text entry's characters, an image's MIME type.
pub open spec fn searchable_text(e: EntryView) -> Seq<char> {
    match e {
        EntryView::Text(t) => t,
        EntryView::Image { mime, .. } => mime,
    }
}

/// Whether an item is shown for the lowercased query `q`.
pub open spec fn item_matches_query(item: HistoryItem, q: Seq<char>) -> bool {
    contains_seq(unicode_lowercase(searchable_text(item.entry@)), q)
}

/// The indices below `n` of the items shown for the lowercased query `q`, in order.
pub open spec fn filtered_upto(h: Seq<HistoryItem>, q: Seq<char>, n: int) -> Seq<usize>
    decreases n,
{
    if n <= 0 {
        Seq::empty()
    } else {
        let r = filtered_upto(h, q, n - 1);
        if item_matches_query(h[n - 1], q) {
            r.push((n - 1) as usize)
        } else {
            r
        }
    }
}

/// The indices of the history items that the search query shows, in order:
/// those whose lowercased text (or MIME type) contains the lowercased query.
pub open spec fn filtered(h: Seq<HistoryItem>, query: Seq<char>) -> Seq<usize> {
    filtered_upto(h, unicode_lowercase(query), h.len() as int)
}

/// The first line (lines end at `'\n'`) at or after `i` that is not blank, trimmed.
pub open spec fn first_nonblank_line_from(s: Seq<char>, i: int) -> Seq<char>
    decreases s.len() - i,
{
    if i < 0 || i > s.len() {
        Seq::empty()
    } else {
        let e = line_end(s, i);
        let t = trim(s.subrange(i, e));
        if t.len() > 0 {
            t
        } else if e < s.len() {
            proof {
                lemma_line_end_range(s, i);
            }
            first_nonblank_line_from(s, e + 1)
        } else {
            Seq::empty()
        }
    }
}

/// One line that stands for a text: its first non-blank line, trimmed, cut to
/// 59 characters and an ellipsis when longer than 60 characters.
pub open spec fn one_line_summary(s: Seq<char>) -> Seq<char> {
    let l = first_nonblank_line_from(s, 0);
    if l.len() > SUMMARY_MAX_CHARS {
        l.take(SUMMARY_MAX_CHARS - 1).push('\u{2026}')
    } else {
        l
    }
}

/// Every string contains the empty string.
pub proof fn lemma_contains_empty(s: Seq<char>)
    ensures
        contains_seq(s, Seq::empty()),
{
    let e = Seq::<char>::empty();
    assert(s.subrange(0, 0 + e.len() as int) =~= e);
}

/// With an empty query every index is shown.
pub proof fn lemma_filtered_empty_query(h: Seq<HistoryItem>, n: int)
    requires
        0 <= n <= h.len(),
    ensures
        filtered_upto(h, Seq::empty(), n) =~= Seq::new(n as nat, |i: int| i as usize),
    decreases n,
{
    if n > 0 {
        lemma_filtered_empty_query(h, n - 1);
        lemma_contains_empty(unicode_lowercase(searchable_text(h[n - 1].entry@)));
    }
}

/// Whether the history item contains the lowercased query `q`.
fn item_matches(item: &HistoryItem, q: &[char]) -> (r: bool)
    ensures
        r == item_matches_query(*item, q@),
{
    let text = match &item.entry {
        ClipboardEntry::Text(text) => text.as_str(),
        ClipboardEntry::Image { mime, .. } => mime.as_str(),
    };
    let lower = to_lowercase(text);
    let lower_chars = chars_of(lower.as_str());
    contains_chars(lower_chars.as_slice(), q)
}

/// The indices into `app.history` that match the current search query.
pub fn filtered_indices(app: &AppModel) -> (r: Vec<usize>)
    ensures
        r@ == filtered(app.history@, app.search_query@),
        app.search_query@.len() == 0 ==> r@ == Seq::new(app.history@.len(), |i: int| i as usize),
{
    let query = to_lowercase(app.search_query.as_str());
    let q = chars_of(query.as_str());
    let len = app.history.len();
    if q.len() == 0 {
        let mut all: Vec<usize> = Vec::new();
        for i in 0..len
            invariant
                len == app.history@.len(),
                all@ =~= Seq::new(i as nat, |k: int| k as usize),
        {
            all.push(i);
        }
        proof {
            lemma_filtered_empty_query(app.history@, len as int);
            assert(q@ =~= Seq::<char>::empty());
        }
        return all;
    }
    let mut out: Vec<usize> = Vec::new();
    for i in 0..len
        invariant
            len == app.history@.len(),
            q@ == unicode_lowercase(app.search_query@),
            out@ == filtered_upto(app.history@, q@, i as int),
    {
        if item_matches(&app.history[i], q.as_slice()) {
            out.push(i);
        }
    }
    out
}

/// A one-line summary of a text (see [`one_line_summary`]).
pub fn summarize_one_line(text: &str) -> (r: String)
    ensures
        r@ == one_line_summary(text@),
{
    let chars = chars_of(text);
    let n = chars.len();
    let mut i: usize = 0;
    let mut line_start: usize = 0;
    let mut line_stop: usize = 0;
    let mut found = false;
    loop
        invariant_except_break
            i <= n == chars@.len(),
            first_nonblank_line_from(chars@, 0) == first_nonblank_line_from(chars@, i as int),
            !found,
        ensures
            found ==> line_start <= line_stop <= n && first_nonblank_line_from(chars@, 0)
                == chars@.subrange(line_start as int, line_stop as int),
            !found ==> first_nonblank_line_from(chars@, 0) == Seq::<char>::empty(),
        decreases n - i,
    {
        let e = find_line_end(chars.as_slice(), i);
        let line = slice_range(chars.as_slice(), i, e);
        let (s, t) = trim_bounds(line.as_slice());
        if s < t {
            line_start = i + s;
            line_stop = i + t;
            found = true;
            assert(first_nonblank_line_from(chars@, i as int) == trim(line@));
            assert(line@.subrange(s as int, t as int) =~= chars@.subrange(
                line_start as int,
                line_stop as int,
            ));
            break ;
        }
        if e >= n {
            break ;
        }
        i = e + 1;
    }
    if !found {
        return string_from_chars(&[]);
    }
    let ghost l = chars@.subrange(line_start as int, line_stop as int);
    if line_stop - line_start > SUMMARY_MAX_CHARS {
        let mut cut = slice_range(chars.as_slice(), line_start, line_start + SUMMARY_MAX_CHARS - 1);
        cut.push('\u{2026}');
        assert(cut@ =~= l.take(SUMMARY_MAX_CHARS - 1).push('\u{2026}'));
        string_from_chars(cut.as_slice())
    } else {
        string_from_chars(slice_range(chars.as_slice(), line_start, line_stop).as_slice())
    }
}

/// What the popup's list area shows.
#[derive(Debug)]
pub enum PopupContent {
    /// The history is empty.
    EmptyHistory,
    /// The search shows no item.
    NoResults,
    /// These history indices, in order.
    Rows(Vec<usize>),
}

/// What the popup's list area shows: a note for an empty history, a note
/// for a search without results, or the rows the search shows.
pub fn popup_content(app: &AppModel) -> (r: PopupContent)
    ensures
        app.history@.len() == 0 ==> r is EmptyHistory,
        app.history@.len() > 0 && filtered(app.history@, app.search_query@).len() == 0 ==> r is NoResults,
        app.history@.len() > 0 && filtered(app.history@, app.search_query@).len() > 0 ==> (
        r matches PopupContent::Rows(v) && v@ == filtered(app.history@, app.search_query@)),
{
    if app.history.len() == 0 {
        return PopupContent::EmptyHistory;
    }
    let visible = filtered_indices(app);
    if visible.len() == 0 {
        PopupContent::NoResults
    } else {
        PopupContent::Rows(visible)
    }
}

/// Whether a divider goes before row `idx`: between the pinned and the
/// unpinned items, when both exist and no search filters the list.
pub fn divider_before(app: &AppModel, idx: usize) -> (r: bool)
    ensures
        r == (app.search_query@.len() == 0 && idx == count_pinned(app.history@) && count_pinned(
            app.history@,
        ) > 0 && count_pinned(app.history@) < app.history@.len()),
{
    let pinned = pinned_count(&app.history);
    app.search_query.as_str().is_empty() && idx == pinned && pinned > 0 && pinned < app.history.len()
}

/// Whether the search bar is shown: when the history has items.
pub fn shows_search_bar(app: &AppModel) -> (r: bool)
    ensures
        r == (app.history@.len() > 0),
{
    app.history.len() > 0
}

/// Whether the delete-all button is shown: when the history has items and
/// no search filters the list.
pub fn shows_delete_all(app: &AppModel) -> (r: bool)
    ensures
        r == (app.history@.len() > 0 && app.search_query@.len() == 0),
{
    app.history.len() > 0 && app.search_query.as_str().is_empty()
}

/// Whether a part of row `idx` is highlighted: it has the keyboard focus or the mouse.
pub fn part_highlighted(app: &AppModel, idx: usize, part: FocusPart) -> (r: bool)
    ensures
        r == (app.keyboard_focus == Some((idx, part)) || app.hovered_focus == Some((idx, part))),
{
    let by_keyboard = match app.keyboard_focus {
        Some((i, p)) => i == idx && p == part,
        None => false,
    };
    let by_mouse = match app.hovered_focus {
        Some((i, p)) => i == idx && p == part,
        None => false,
    };
    by_keyboard || by_mouse
}

/// Whether the image caption (MIME type and size) is shown for row `idx`: when it is hovered.
pub fn shows_image_caption(app: &AppModel, idx: usize) -> (r: bool)
    ensures
        r == (app.hovered_index == Some(idx)),
{
    match app.hovered_index {
        Some(h) => h == idx,
        None => false,
    }
}

/// The size shown for an image of `len` bytes: kilobytes rounded up
/// (the addition saturates at `usize::MAX`).
pub fn image_size_kb(len: usize) -> (r: usize)
    ensures
        r == (if len + 1023 > usize::MAX { usize::MAX as int } else { len + 1023 }) / 1024,
{
    len.saturating_add(1023) / 1024
}

} // verus!
