//! The clipboard history: an ordered list, newest first, whose pinned items
//! stay in front, with at most `MAX_PINNED` pins and about `MAX_HISTORY` items.
use vstd::prelude::*;
use std::collections::VecDeque;

use crate::clipboard::model::{ClipboardEntry, EntryView, entries_match};
use crate::text::{chars_of, trim, trim_bounds};

verus! {

/// How many entries the history keeps (pinned ones are never dropped).
pub const MAX_HISTORY: usize = 30;

/// How many entries can be pinned at once.
pub const MAX_PINNED: usize = 5;

/// One entry of the history and whether it is pinned.
#[derive(Debug, Clone)]
pub struct HistoryItem {
    pub entry: ClipboardEntry,
    pub pinned: bool,
}

// ---------------------------------------------------------------------------
// The model: a history is a `Seq<HistoryItem>`, newest first.
// ---------------------------------------------------------------------------

/// The number of pinned items of `h`.
pub open spec fn count_pinned(h: Seq<HistoryItem>) -> nat
    decreases h.len(),
{
    if h.len() == 0 {
        0
    } else {
        (if h[0].pinned { 1nat } else { 0nat }) + count_pinned(h.drop_first())
    }
}

/// The end of the run of pinned items that starts at `i`.
pub open spec fn pinned_run_end(h: Seq<HistoryItem>, i: int) -> int
    decreases h.len() - i,
{
    if 0 <= i < h.len() && h[i].pinned {
        pinned_run_end(h, i + 1)
    } else {
        i
    }
}

/// The number of pinned items at the front of `h`: where a new unpinned item goes.
pub open spec fn pinned_prefix_len(h: Seq<HistoryItem>) -> int {
    pinned_run_end(h, 0)
}

/// `h` with `item` inserted right after the leading pinned items.
pub open spec fn inserted_after_pins(h: Seq<HistoryItem>, item: HistoryItem) -> Seq<HistoryItem> {
    h.insert(pinned_prefix_len(h), item)
}

/// The index of the last unpinned item among `h[..j]`, or -1 when all are pinned.
pub open spec fn last_unpinned_before(h: Seq<HistoryItem>, j: int) -> int
    decreases j,
{
    if j <= 0 || j > h.len() {
        -1
    } else if !h[j - 1].pinned {
        j - 1
    } else {
        last_unpinned_before(h, j - 1)
    }
}

/// The index of the last unpinned item of `h`, or -1 when all are pinned.
pub open spec fn last_unpinned(h: Seq<HistoryItem>) -> int {
    last_unpinned_before(h, h.len() as int)
}

/// `last_unpinned_before(h, j)` is -1 or an index below `j` of an unpinned item.
pub proof fn lemma_last_unpinned_range(h: Seq<HistoryItem>, j: int)
    requires
        0 <= j <= h.len(),
    ensures
        -1 <= last_unpinned_before(h, j) < j,
        last_unpinned_before(h, j) >= 0 ==> !h[last_unpinned_before(h, j)].pinned,
        forall|k: int| last_unpinned_before(h, j) < k < j ==> #[trigger] h[k].pinned,
    decreases j,
{
    if j > 0 && h[j - 1].pinned {
        lemma_last_unpinned_range(h, j - 1);
    }
}

/// `h` after dropping the oldest unpinned items until at most `MAX_HISTORY`
/// remain or only pinned items are left.
pub open spec fn trimmed(h: Seq<HistoryItem>) -> Seq<HistoryItem>
    decreases h.len(),
{
    if h.len() > MAX_HISTORY && last_unpinned(h) >= 0 {
        proof {
            lemma_last_unpinned_range(h, h.len() as int);
        }
        trimmed(h.remove(last_unpinned(h)))
    } else {
        h
    }
}

/// `item` with its pin flag set to `pinned`.
pub open spec fn with_pin(item: HistoryItem, pinned: bool) -> HistoryItem {
    HistoryItem { entry: item.entry, pinned }
}

/// The history after toggling the pin of the item at `index`: an unpinned
/// item is pinned and moved behind the pinned ones, unless `MAX_PINNED`
/// items are pinned already (then nothing changes); a pinned item is unpinned
/// and moved to the front of the unpinned ones; an index out of range changes
/// nothing.
pub open spec fn toggled(h: Seq<HistoryItem>, index: int) -> Seq<HistoryItem> {
    if index < 0 || index >= h.len() {
        h
    } else {
        let item = h[index];
        let rest = h.remove(index);
        if item.pinned {
            inserted_after_pins(rest, with_pin(item, false))
        } else if count_pinned(rest) >= MAX_PINNED {
            h
        } else {
            inserted_after_pins(rest, with_pin(item, true))
        }
    }
}

/// The first index at or after `i` whose entry matches `e`, or -1.
pub open spec fn first_match_from(h: Seq<HistoryItem>, e: EntryView, i: int) -> int
    decreases h.len() - i,
{
    if i < 0 || i >= h.len() {
        -1
    } else if entries_match(h[i].entry@, e) {
        i
    } else {
        first_match_from(h, e, i + 1)
    }
}

/// The first index whose entry matches `e`, or -1.
pub open spec fn first_match(h: Seq<HistoryItem>, e: EntryView) -> int {
    first_match_from(h, e, 0)
}

/// The characters that a short entry may hold and still be ignored.
pub open spec fn numericish(c: char) -> bool {
    ('0' <= c && c <= '9') || c == ',' || c == '.' || c == ':' || c == ';' || c == '/' || c == '\\'
        || c == '_' || c == '-' || c == ' '
}

/// Whether a copied text is ignored: blank once trimmed, or at most 8
/// characters that are all digits or separators (`, . : ; / \ _ -` and space).
pub open spec fn ignored_text(s: Seq<char>) -> bool {
    let t = trim(s);
    t.len() == 0 || (t.len() <= 8 && forall|i: int| 0 <= i < t.len() ==> numericish(#[trigger] t[i]))
}

/// The history after the clipboard showed `e`: nothing changes when `e`
/// matches the front item or is an ignored text; otherwise the first item
/// that matches `e` is removed, `e` is inserted after the pinned items with
/// the pin flag of the removed item (unpinned when none matched), and the
/// history is trimmed.
pub open spec fn after_clipboard_change(h: Seq<HistoryItem>, e: ClipboardEntry) -> Seq<
    HistoryItem,
> {
    if h.len() > 0 && entries_match(h[0].entry@, e@) {
        h
    } else if e@ is Text && ignored_text(e@->Text_0) {
        h
    } else {
        let p = first_match(h, e@);
        let rest = if p >= 0 { h.remove(p) } else { h };
        let pinned = p >= 0 && h[p].pinned;
        trimmed(inserted_after_pins(rest, HistoryItem { entry: e, pinned }))
    }
}

// ---------------------------------------------------------------------------
// Operations
// ---------------------------------------------------------------------------

/// The number of pinned items.
pub fn pinned_count(history: &VecDeque<HistoryItem>) -> (n: usize)
    ensures
        n == count_pinned(history@),
{
    let len = history.len();
    let mut i: usize = 0;
    let mut n: usize = 0;
    assert(history@.skip(0) =~= history@);
    while i < len
        invariant
            len == history@.len(),
            i <= len,
            n <= i,
            n + count_pinned(history@.skip(i as int)) == count_pinned(history@),
        decreases len - i,
    {
        assert(history@.skip(i as int).drop_first() =~= history@.skip(i + 1));
        if history[i].pinned {
            n = n + 1;
        }
        i = i + 1;
    }
    assert(history@.skip(len as int) =~= Seq::<HistoryItem>::empty());
    n
}

/// The number of pinned items at the front.
fn pinned_prefix(history: &VecDeque<HistoryItem>) -> (p: usize)
    ensures
        p == pinned_prefix_len(history@),
        p <= history@.len(),
{
    let len = history.len();
    let mut i: usize = 0;
    while i < len && history[i].pinned
        invariant
            len == history@.len(),
            i <= len,
            pinned_run_end(history@, i as int) == pinned_prefix_len(history@),
        decreases len - i,
    {
        i = i + 1;
    }
    i
}

/// Inserts `item` right after the pinned items at the front.
pub fn insert_after_pins(history: &mut VecDeque<HistoryItem>, item: HistoryItem)
    ensures
        final(history)@ == inserted_after_pins(old(history)@, item),
{
    let pos = pinned_prefix(history);
    history.insert(pos, item);
}

/// The index of the last unpinned item, if any.
fn rposition_unpinned(history: &VecDeque<HistoryItem>) -> (r: Option<usize>)
    ensures
        match r {
            Some(i) => i == last_unpinned(history@) && i < history@.len(),
            None => last_unpinned(history@) < 0,
        },
{
    let mut j: usize = history.len();
    while j > 0 && history[j - 1].pinned
        invariant
            j <= history@.len(),
            last_unpinned_before(history@, j as int) == last_unpinned(history@),
        decreases j,
    {
        j = j - 1;
    }
    if j == 0 {
        None
    } else {
        Some(j - 1)
    }
}

/// Drops the oldest unpinned items until at most `MAX_HISTORY` remain
/// (or only pinned ones are left).
pub fn trim_history(history: &mut VecDeque<HistoryItem>)
    ensures
        final(history)@ == trimmed(old(history)@),
{
    while history.len() > MAX_HISTORY
        invariant
            trimmed(old(history)@) == trimmed(history@),
        decreases history@.len(),
    {
        match rposition_unpinned(history) {
            Some(idx) => {
                let _ = history.remove(idx);
            },
            None => {
                return ;
            },
        }
    }
}

/// Toggles the pin of the item at `index` (see [`toggled`]).
pub fn toggle_pin(history: &mut VecDeque<HistoryItem>, index: usize)
    ensures
        final(history)@ == toggled(old(history)@, index as int),
{
    let ghost h = history@;
    let mut item = match history.remove(index) {
        Some(item) => item,
        None => {
            return ;
        },
    };
    if item.pinned {
        item.pinned = false;
        insert_after_pins(history, item);
    } else if pinned_count(history) >= MAX_PINNED {
        history.insert(index, item);
        assert(history@ =~= h);
    } else {
        item.pinned = true;
        insert_after_pins(history, item);
    }
}

/// The first index whose entry matches `entry`.
fn position_of_entry(history: &VecDeque<HistoryItem>, entry: &ClipboardEntry) -> (r: Option<usize>)
    ensures
        match r {
            Some(i) => i == first_match(history@, entry@) && i < history@.len(),
            None => first_match(history@, entry@) < 0,
        },
{
    let len = history.len();
    let mut i: usize = 0;
    while i < len
        invariant
            len == history@.len(),
            i <= len,
            first_match_from(history@, entry@, i as int) == first_match(history@, entry@),
        decreases len - i,
    {
        if history[i].entry.matches(entry) {
            return Some(i);
        }
        i = i + 1;
    }
    None
}

/// Whether a copied text is too trivial to keep (see [`ignored_text`]).
pub fn should_ignore_clipboard_entry(entry: &str) -> (r: bool)
    ensures
        r == ignored_text(entry@),
{
    let chars = chars_of(entry);
    let (start, end) = trim_bounds(chars.as_slice());
    let ghost t = chars@.subrange(start as int, end as int);
    if start == end {
        assert(t.len() == 0);
        return true;
    }
    if end - start > 8 {
        return false;
    }
    let mut i = start;
    while i < end
        invariant
            start <= i <= end <= chars@.len(),
            t == chars@.subrange(start as int, end as int),
            trim(entry@) == t,
            0 < end - start <= 8,
            forall|k: int| 0 <= k < i - start ==> numericish(#[trigger] t[k]),
        decreases end - i,
    {
        let c = chars[i];
        let ok = ('0' <= c && c <= '9') || c == ',' || c == '.' || c == ':' || c == ';' || c == '/'
            || c == '\\' || c == '_' || c == '-' || c == ' ';
        if !ok {
            assert(!numericish(t[i - start]));
            return false;
        }
        i = i + 1;
    }
    true
}

/// Records a new clipboard content in the history (see [`after_clipboard_change`]).
pub fn record_clipboard_entry(history: &mut VecDeque<HistoryItem>, entry: ClipboardEntry)
    ensures
        final(history)@ == after_clipboard_change(old(history)@, entry),
{
    if history.len() > 0 && history[0].entry.matches(&entry) {
        return ;
    }
    if let ClipboardEntry::Text(text) = &entry {
        if should_ignore_clipboard_entry(text.as_str()) {
            return ;
        }
    }
    let ghost h = history@;
    let pinned = match position_of_entry(history, &entry) {
        Some(idx) => match history.remove(idx) {
            Some(it) => it.pinned,
            None => false,
        },
        None => false,
    };
    insert_after_pins(history, HistoryItem { entry, pinned });
    trim_history(history);
}

} // verus!
