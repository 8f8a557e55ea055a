//! Properties of the library that span its operations, proved over the
//! models that the operations' contracts use.
use vstd::prelude::*;

use crate::app::model::{Action, AppView, FocusPart, Message};
use crate::app::subscription::{command_of_char, command_of_named_key, KeyCommand, NavKey};
use crate::app::update::{
    hovered_position, next, position_from, removed_at, selected, selection_above, selection_below,
};
use crate::app::view::{
    filtered, filtered_upto, first_nonblank_line_from, one_line_summary,
    SUMMARY_MAX_CHARS,
};
use crate::clipboard::uri::{decoded_path, percent_decoded};
use crate::text::{line_end, trim, trim_end, trim_start};
use vstd::utf8::{encode_utf8, is_ascii_chars};
use crate::clipboard::model::{entries_match, fingerprint_of, entry_wf, ClipboardEntry, EntryView};
use crate::text::unicode_lowercase;
use crate::history::{
    after_clipboard_change, count_pinned, first_match, first_match_from, ignored_text,
    inserted_after_pins, last_unpinned, lemma_last_unpinned_range,
    pinned_prefix_len, pinned_run_end, toggled, trimmed, with_pin, HistoryItem, MAX_HISTORY,
    MAX_PINNED,
};

verus! {

// ---------------------------------------------------------------------------
// The invariant of the history
// ---------------------------------------------------------------------------

/// Pinned items come before all unpinned ones.
pub open spec fn pins_in_front(h: Seq<HistoryItem>) -> bool {
    forall|i: int, j: int|
        #![trigger h[i], h[j]]
        0 <= i < j < h.len() && h[j].pinned ==> h[i].pinned
}

/// No two items hold the same clipboard content.
pub open spec fn no_duplicate_entries(h: Seq<HistoryItem>) -> bool {
    forall|i: int, j: int|
        #![trigger h[i], h[j]]
        0 <= i < j < h.len() ==> !entries_match(h[i].entry@, h[j].entry@)
}

/// What every history that the applet builds satisfies: pins in front, at
/// most `MAX_PINNED` pins, at most `MAX_HISTORY` items, no duplicates.
pub open spec fn history_wf(h: Seq<HistoryItem>) -> bool {
    &&& pins_in_front(h)
    &&& count_pinned(h) <= MAX_PINNED
    &&& h.len() <= MAX_HISTORY
    &&& no_duplicate_entries(h)
}

/// 1 for a pinned item, 0 for another.
pub open spec fn pin_weight(it: HistoryItem) -> nat {
    if it.pinned {
        1
    } else {
        0
    }
}

// ---------------------------------------------------------------------------
// Lemmas on matching entries
// ---------------------------------------------------------------------------

/// Matching is symmetric and transitive.
pub proof fn lemma_entries_match_equivalence(a: EntryView, b: EntryView, c: EntryView)
    ensures
        entries_match(a, a),
        entries_match(a, b) ==> entries_match(b, a),
        entries_match(a, b) && entries_match(b, c) ==> entries_match(a, c),
{
}

/// `first_match_from` is the first index at or after `i` that matches.
proof fn lemma_first_match(h: Seq<HistoryItem>, e: EntryView, i: int)
    requires
        0 <= i <= h.len(),
    ensures
        -1 <= first_match_from(h, e, i) < h.len(),
        first_match_from(h, e, i) >= 0 ==> i <= first_match_from(h, e, i) && entries_match(
            h[first_match_from(h, e, i)].entry@,
            e,
        ),
        forall|k: int|
            i <= k < h.len() && (first_match_from(h, e, i) < 0 || k < first_match_from(h, e, i))
                ==> !entries_match(#[trigger] h[k].entry@, e),
    decreases h.len() - i,
{
    if i < h.len() && !entries_match(h[i].entry@, e) {
        lemma_first_match(h, e, i + 1);
    }
}

// ---------------------------------------------------------------------------
// Lemmas on counting pins
// ---------------------------------------------------------------------------

proof fn lemma_count_concat(a: Seq<HistoryItem>, b: Seq<HistoryItem>)
    ensures
        count_pinned(a + b) == count_pinned(a) + count_pinned(b),
    decreases a.len(),
{
    if a.len() == 0 {
        assert(a + b =~= b);
    } else {
        assert((a + b).drop_first() =~= a.drop_first() + b);
        lemma_count_concat(a.drop_first(), b);
    }
}

proof fn lemma_count_single(x: HistoryItem)
    ensures
        count_pinned(seq![x]) == pin_weight(x),
{
    let s = seq![x];
    assert(s.len() == 1 && s[0] == x);
    assert(s.drop_first() =~= Seq::<HistoryItem>::empty());
    assert(count_pinned(s.drop_first()) == 0);
}

proof fn lemma_count_remove(h: Seq<HistoryItem>, i: int)
    requires
        0 <= i < h.len(),
    ensures
        count_pinned(h.remove(i)) + pin_weight(h[i]) == count_pinned(h),
{
    assert(h =~= h.take(i) + seq![h[i]] + h.skip(i + 1));
    assert(h.remove(i) =~= h.take(i) + h.skip(i + 1));
    lemma_count_concat(h.take(i), h.skip(i + 1));
    lemma_count_concat(h.take(i) + seq![h[i]], h.skip(i + 1));
    lemma_count_concat(h.take(i), seq![h[i]]);
    lemma_count_single(h[i]);
}

proof fn lemma_count_insert(h: Seq<HistoryItem>, i: int, x: HistoryItem)
    requires
        0 <= i <= h.len(),
    ensures
        count_pinned(h.insert(i, x)) == count_pinned(h) + pin_weight(x),
{
    assert(h =~= h.take(i) + h.skip(i));
    assert(h.insert(i, x) =~= h.take(i) + seq![x] + h.skip(i));
    lemma_count_concat(h.take(i), h.skip(i));
    lemma_count_concat(h.take(i) + seq![x], h.skip(i));
    lemma_count_concat(h.take(i), seq![x]);
    lemma_count_single(x);
}

proof fn lemma_count_bounds(h: Seq<HistoryItem>)
    ensures
        count_pinned(h) <= h.len(),
        (forall|k: int| 0 <= k < h.len() ==> #[trigger] h[k].pinned) ==> count_pinned(h) == h.len(),
        (forall|k: int| 0 <= k < h.len() ==> !(#[trigger] h[k].pinned)) ==> count_pinned(h) == 0,
    decreases h.len(),
{
    if h.len() > 0 {
        lemma_count_bounds(h.drop_first());
        if forall|k: int| 0 <= k < h.len() ==> #[trigger] h[k].pinned {
            assert forall|k: int| 0 <= k < h.drop_first().len() implies #[trigger] h.drop_first()[k].pinned by {
                assert(h[k + 1].pinned);
            }
        }
        if forall|k: int| 0 <= k < h.len() ==> !(#[trigger] h[k].pinned) {
            assert forall|k: int| 0 <= k < h.drop_first().len() implies !(
            #[trigger] h.drop_first()[k].pinned) by {
                assert(!h[k + 1].pinned);
            }
        }
    }
}

// ---------------------------------------------------------------------------
// Lemmas on the pinned prefix
// ---------------------------------------------------------------------------

proof fn lemma_run_end(h: Seq<HistoryItem>, i: int)
    requires
        0 <= i <= h.len(),
    ensures
        i <= pinned_run_end(h, i) <= h.len(),
        forall|k: int| i <= k < pinned_run_end(h, i) ==> #[trigger] h[k].pinned,
        pinned_run_end(h, i) < h.len() ==> !h[pinned_run_end(h, i)].pinned,
    decreases h.len() - i,
{
    if i < h.len() && h[i].pinned {
        lemma_run_end(h, i + 1);
    }
}

/// With pins in front, the pinned prefix holds exactly the pinned items.
proof fn lemma_prefix_splits(h: Seq<HistoryItem>)
    requires
        pins_in_front(h),
    ensures
        0 <= pinned_prefix_len(h) <= h.len(),
        forall|k: int| 0 <= k < pinned_prefix_len(h) ==> #[trigger] h[k].pinned,
        forall|k: int| pinned_prefix_len(h) <= k < h.len() ==> !(#[trigger] h[k].pinned),
{
    lemma_run_end(h, 0);
    let p = pinned_prefix_len(h);
    assert forall|k: int| p <= k < h.len() implies !(#[trigger] h[k].pinned) by {
        if h[k].pinned && p < k {
            assert(h[p].pinned);
        }
    }
}

proof fn lemma_pins_remove(h: Seq<HistoryItem>, i: int)
    requires
        0 <= i < h.len(),
        pins_in_front(h),
    ensures
        pins_in_front(h.remove(i)),
{
    let r = h.remove(i);
    assert forall|a: int, b: int| 0 <= a < b < r.len() && r[b].pinned implies r[a].pinned by {
        let a0 = if a < i { a } else { a + 1 };
        let b0 = if b < i { b } else { b + 1 };
        assert(r[a] == h[a0] && r[b] == h[b0]);
        assert(h[a0].pinned);
    }
}

proof fn lemma_nodup_remove(h: Seq<HistoryItem>, i: int)
    requires
        0 <= i < h.len(),
        no_duplicate_entries(h),
    ensures
        no_duplicate_entries(h.remove(i)),
        forall|k: int|
            0 <= k < h.remove(i).len() ==> !entries_match(#[trigger] h.remove(i)[k].entry@, h[i].entry@),
{
    let r = h.remove(i);
    assert forall|a: int, b: int| 0 <= a < b < r.len() implies !entries_match(
        r[a].entry@,
        r[b].entry@,
    ) by {
        let a0 = if a < i { a } else { a + 1 };
        let b0 = if b < i { b } else { b + 1 };
        assert(r[a] == h[a0] && r[b] == h[b0]);
        assert(!entries_match(h[a0].entry@, h[b0].entry@));
    }
    assert forall|k: int| 0 <= k < r.len() implies !entries_match(
        #[trigger] r[k].entry@,
        h[i].entry@,
    ) by {
        let k0 = if k < i { k } else { k + 1 };
        assert(r[k] == h[k0]);
        if k0 < i {
            assert(!entries_match(h[k0].entry@, h[i].entry@));
        } else {
            assert(!entries_match(h[i].entry@, h[k0].entry@));
            lemma_entries_match_equivalence(h[k0].entry@, h[i].entry@, h[i].entry@);
        }
    }
}

proof fn lemma_pins_insert_at_prefix(h: Seq<HistoryItem>, x: HistoryItem)
    requires
        pins_in_front(h),
    ensures
        pins_in_front(inserted_after_pins(h, x)),
        0 <= pinned_prefix_len(h) <= h.len(),
        inserted_after_pins(h, x)[pinned_prefix_len(h)] == x,
{
    lemma_prefix_splits(h);
    let p = pinned_prefix_len(h);
    let r = h.insert(p, x);
    assert forall|a: int, b: int| 0 <= a < b < r.len() && r[b].pinned implies r[a].pinned by {
        if a < p {
            assert(r[a] == h[a]);
        } else if a == p {
            // b > p holds an item of h at or after the prefix: unpinned.
            assert(r[b] == h[b - 1]);
        } else {
            assert(r[b] == h[b - 1]);
        }
    }
}

proof fn lemma_nodup_insert(h: Seq<HistoryItem>, i: int, x: HistoryItem)
    requires
        0 <= i <= h.len(),
        no_duplicate_entries(h),
        forall|k: int| 0 <= k < h.len() ==> !entries_match(#[trigger] h[k].entry@, x.entry@),
    ensures
        no_duplicate_entries(h.insert(i, x)),
{
    let r = h.insert(i, x);
    assert forall|a: int, b: int| 0 <= a < b < r.len() implies !entries_match(
        r[a].entry@,
        r[b].entry@,
    ) by {
        if a == i {
            assert(r[b] == h[b - 1]);
            assert(!entries_match(h[b - 1].entry@, x.entry@));
            lemma_entries_match_equivalence(x.entry@, h[b - 1].entry@, x.entry@);
        } else if b == i {
            assert(r[a] == h[a]);
            assert(!entries_match(h[a].entry@, x.entry@));
        } else {
            let a0 = if a < i { a } else { a - 1 };
            let b0 = if b < i { b } else { b - 1 };
            assert(r[a] == h[a0] && r[b] == h[b0]);
            assert(!entries_match(h[a0].entry@, h[b0].entry@));
        }
    }
}

// ---------------------------------------------------------------------------
// Lemmas on trimming
// ---------------------------------------------------------------------------

/// With pins in front and some item unpinned, the last item is the last unpinned one.
proof fn lemma_last_is_unpinned(h: Seq<HistoryItem>)
    requires
        pins_in_front(h),
        count_pinned(h) < h.len(),
    ensures
        last_unpinned(h) == h.len() - 1,
        !h[h.len() - 1].pinned,
{
    lemma_count_bounds(h);
    if h[h.len() - 1].pinned {
        assert forall|k: int| 0 <= k < h.len() implies #[trigger] h[k].pinned by {
            if k < h.len() - 1 {
                assert(h[h.len() - 1].pinned);
            }
        }
        assert(false);
    }
}

/// Trimming keeps the invariant's parts and the pins, and bounds the length.
proof fn lemma_trimmed(h: Seq<HistoryItem>)
    requires
        pins_in_front(h),
        no_duplicate_entries(h),
    ensures
        pins_in_front(trimmed(h)),
        no_duplicate_entries(trimmed(h)),
        count_pinned(trimmed(h)) == count_pinned(h),
        trimmed(h).len() <= h.len(),
        count_pinned(h) <= MAX_HISTORY ==> trimmed(h).len() <= MAX_HISTORY,
    decreases h.len(),
{
    if h.len() > MAX_HISTORY && last_unpinned(h) >= 0 {
        let u = last_unpinned(h);
        lemma_last_unpinned_range(h, h.len() as int);
        lemma_count_remove(h, u);
        lemma_pins_remove(h, u);
        lemma_nodup_remove(h, u);
        lemma_trimmed(h.remove(u));
    } else if h.len() > MAX_HISTORY {
        lemma_last_unpinned_range(h, h.len() as int);
        lemma_count_bounds(h);
    }
}

/// One item over the limit with some unpinned item: trimming drops the last item only.
proof fn lemma_trimmed_one_over(h: Seq<HistoryItem>)
    requires
        pins_in_front(h),
        h.len() == MAX_HISTORY + 1,
        count_pinned(h) < h.len(),
    ensures
        trimmed(h) == h.remove(h.len() - 1),
{
    lemma_last_is_unpinned(h);
    let r = h.remove(h.len() - 1);
    assert(r.len() == MAX_HISTORY);
    assert(trimmed(r) == r);
}

// ---------------------------------------------------------------------------
// Laws of the history operations
// ---------------------------------------------------------------------------

/// Recording a clipboard content keeps the history invariant.
pub proof fn law_clipboard_change_keeps_invariant(h: Seq<HistoryItem>, e: ClipboardEntry)
    requires
        history_wf(h),
    ensures
        history_wf(after_clipboard_change(h, e)),
{
    if h.len() > 0 && entries_match(h[0].entry@, e@) {
    } else if e@ is Text && ignored_text(e@->Text_0) {
    } else {
        let p = first_match(h, e@);
        lemma_first_match(h, e@, 0);
        let rest = if p >= 0 { h.remove(p) } else { h };
        let pinned = p >= 0 && h[p].pinned;
        let item = HistoryItem { entry: e, pinned };
        if p >= 0 {
            lemma_count_remove(h, p);
            lemma_pins_remove(h, p);
            lemma_nodup_remove(h, p);
            assert forall|k: int| 0 <= k < rest.len() implies !entries_match(
                #[trigger] rest[k].entry@,
                item.entry@,
            ) by {
                assert(!entries_match(rest[k].entry@, h[p].entry@));
                lemma_entries_match_equivalence(rest[k].entry@, e@, h[p].entry@);
                lemma_entries_match_equivalence(h[p].entry@, e@, e@);
            }
        }
        lemma_prefix_splits(rest);
        let ins = inserted_after_pins(rest, item);
        lemma_pins_insert_at_prefix(rest, item);
        lemma_nodup_insert(rest, pinned_prefix_len(rest), item);
        lemma_count_insert(rest, pinned_prefix_len(rest), item);
        lemma_trimmed(ins);
    }
}

/// Toggling a pin keeps the history invariant.
pub proof fn law_toggle_pin_keeps_invariant(h: Seq<HistoryItem>, index: int)
    requires
        history_wf(h),
    ensures
        history_wf(toggled(h, index)),
{
    if 0 <= index < h.len() {
        let item = h[index];
        let rest = h.remove(index);
        lemma_count_remove(h, index);
        lemma_pins_remove(h, index);
        lemma_nodup_remove(h, index);
        lemma_prefix_splits(rest);
        if item.pinned || count_pinned(rest) < MAX_PINNED {
            let x = with_pin(item, !item.pinned);
            lemma_pins_insert_at_prefix(rest, x);
            lemma_nodup_insert(rest, pinned_prefix_len(rest), x);
            lemma_count_insert(rest, pinned_prefix_len(rest), x);
        }
    }
}

/// Removing an item keeps the history invariant.
pub proof fn law_remove_keeps_invariant(h: Seq<HistoryItem>, index: int)
    requires
        history_wf(h),
    ensures
        history_wf(removed_at(h, index)),
{
    if 0 <= index < h.len() {
        lemma_count_remove(h, index);
        lemma_pins_remove(h, index);
        lemma_nodup_remove(h, index);
    }
}

/// Every message keeps the history invariant: pins stay in front, at most
/// `MAX_PINNED` pins, at most `MAX_HISTORY` items, no duplicate contents.
pub proof fn law_update_keeps_history_invariant(s: AppView, m: Message)
    requires
        history_wf(s.history),
    ensures
        history_wf(next(s, m).0.history),
{
    match m {
        Message::ClipboardChanged(e) => law_clipboard_change_keeps_invariant(s.history, e),
        Message::TogglePin(i) => law_toggle_pin_keeps_invariant(s.history, i as int),
        Message::RemoveHistory(i) => law_remove_keeps_invariant(s.history, i as int),
        Message::ClearHistory => {
            assert(count_pinned(Seq::<HistoryItem>::empty()) == 0);
        },
        Message::ActivateSelection => {
            match s.keyboard_focus {
                Some((idx, part)) => match part {
                    FocusPart::Pin => law_toggle_pin_keeps_invariant(s.history, idx as int),
                    FocusPart::Remove => law_remove_keeps_invariant(s.history, idx as int),
                    FocusPart::Entry => {},
                },
                None => {},
            }
        },
        _ => {},
    }
}

/// The pinned prefix is no longer than the number of pins.
proof fn lemma_prefix_le_count(h: Seq<HistoryItem>)
    requires
        pins_in_front(h),
    ensures
        pinned_prefix_len(h) <= count_pinned(h),
{
    lemma_prefix_splits(h);
    let p = pinned_prefix_len(h);
    assert(h =~= h.take(p) + h.skip(p));
    lemma_count_concat(h.take(p), h.skip(p));
    assert forall|k: int| 0 <= k < h.take(p).len() implies #[trigger] h.take(p)[k].pinned by {
        assert(h[k].pinned);
    }
    lemma_count_bounds(h.take(p));
}

/// With pins in front, the pinned prefix is as long as the number of pins.
proof fn lemma_prefix_is_count(h: Seq<HistoryItem>)
    requires
        pins_in_front(h),
    ensures
        pinned_prefix_len(h) == count_pinned(h),
{
    lemma_prefix_splits(h);
    let p = pinned_prefix_len(h);
    assert(h =~= h.take(p) + h.skip(p));
    lemma_count_concat(h.take(p), h.skip(p));
    assert forall|k: int| 0 <= k < h.take(p).len() implies #[trigger] h.take(p)[k].pinned by {
        assert(h[k].pinned);
    }
    assert forall|k: int| 0 <= k < h.skip(p).len() implies !(#[trigger] h.skip(p)[k].pinned) by {
        assert(!h[p + k].pinned);
    }
    lemma_count_bounds(h.take(p));
    lemma_count_bounds(h.skip(p));
}

/// Where a new clipboard content lands and what happens to the others: it
/// goes last among the pinned items when it takes over a pinned item, else
/// first after them; the number of pins does not change; the other items are
/// the old ones without the one it replaces, in their old order, of which only
/// the last may be dropped to keep `MAX_HISTORY` items, and no pinned one is.
pub proof fn law_clipboard_change_places_entry(h: Seq<HistoryItem>, e: ClipboardEntry)
    requires
        history_wf(h),
        !(h.len() > 0 && entries_match(h[0].entry@, e@)),
        !(e@ is Text && ignored_text(e@->Text_0)),
    ensures
        ({
            let after = after_clipboard_change(h, e);
            let p = first_match(h, e@);
            let rest = if p >= 0 { h.remove(p) } else { h };
            let item = HistoryItem { entry: e, pinned: p >= 0 && h[p].pinned };
            let k = if item.pinned { count_pinned(after) - 1 } else { count_pinned(after) as int };
            &&& count_pinned(after) == count_pinned(h)
            &&& 0 <= k < after.len()
            &&& after[k] == item
            &&& after.remove(k) == rest.take(after.len() - 1)
            &&& forall|i: int| 0 <= i < rest.len() && #[trigger] rest[i].pinned ==> i < after.len() - 1
        }),
{
    let after = after_clipboard_change(h, e);
    let p = first_match(h, e@);
    lemma_first_match(h, e@, 0);
    let rest = if p >= 0 { h.remove(p) } else { h };
    let item = HistoryItem { entry: e, pinned: p >= 0 && h[p].pinned };
    if p >= 0 {
        lemma_count_remove(h, p);
        lemma_pins_remove(h, p);
        lemma_nodup_remove(h, p);
    }
    let pp = pinned_prefix_len(rest);
    lemma_prefix_is_count(rest);
    lemma_prefix_splits(rest);
    lemma_pins_insert_at_prefix(rest, item);
    lemma_count_insert(rest, pp, item);
    let ins = inserted_after_pins(rest, item);
    assert(ins == rest.insert(pp, item));
    if ins.len() <= MAX_HISTORY {
        assert(after == ins);
        assert(after.remove(pp) =~= rest.take(after.len() - 1));
    } else {
        lemma_trimmed_one_over(ins);
        assert(after == ins.remove(ins.len() - 1));
        lemma_count_remove(ins, ins.len() - 1);
        lemma_last_is_unpinned(ins);
        assert(after.remove(pp) =~= rest.take(after.len() - 1));
    }
    assert forall|i: int| 0 <= i < rest.len() && #[trigger] rest[i].pinned implies i < after.len()
        - 1 by {
        assert(i < pp);
    }
}

/// Toggling a pin keeps the length, the other items with their flags and
/// their order, and puts the toggled item last among the pinned items when it
/// is now pinned, else first after them; it changes nothing when the item is
/// unpinned and `MAX_PINNED` others are pinned. Pins stay in front and at most
/// `MAX_PINNED`.
pub proof fn law_toggle_pin_moves_item(h: Seq<HistoryItem>, index: int)
    requires
        pins_in_front(h),
        count_pinned(h) <= MAX_PINNED,
        0 <= index < h.len(),
    ensures
        ({
            let t = toggled(h, index);
            let rest = h.remove(index);
            let changed = h[index].pinned || count_pinned(rest) < MAX_PINNED;
            let x = with_pin(h[index], !h[index].pinned);
            let k = if x.pinned { count_pinned(t) - 1 } else { count_pinned(t) as int };
            &&& t.len() == h.len()
            &&& pins_in_front(t)
            &&& count_pinned(t) <= MAX_PINNED
            &&& !changed ==> t == h
            &&& changed ==> 0 <= k < t.len() && t[k] == x && t.remove(k) == rest
        }),
{
    let rest = h.remove(index);
    lemma_count_remove(h, index);
    lemma_pins_remove(h, index);
    lemma_prefix_is_count(rest);
    let x = with_pin(h[index], !h[index].pinned);
    if h[index].pinned || count_pinned(rest) < MAX_PINNED {
        let pp = pinned_prefix_len(rest);
        lemma_pins_insert_at_prefix(rest, x);
        lemma_count_insert(rest, pp, x);
        let t = rest.insert(pp, x);
        assert(t.remove(pp) =~= rest);
    }
}

/// A new clipboard content (one that does not match the front item and is
/// not an ignored text) ends up in the history exactly once, with the pin
/// state of the item it replaces (unpinned when it replaces none).
pub proof fn law_clipboard_change_records_entry(h: Seq<HistoryItem>, e: ClipboardEntry)
    requires
        history_wf(h),
        !(h.len() > 0 && entries_match(h[0].entry@, e@)),
        !(e@ is Text && ignored_text(e@->Text_0)),
    ensures
        ({
            let after = after_clipboard_change(h, e);
            let p = first_match(h, e@);
            let item = HistoryItem { entry: e, pinned: p >= 0 && h[p].pinned };
            &&& exists|k: int| 0 <= k < after.len() && after[k] == item
            &&& forall|i: int, j: int|
                0 <= i < after.len() && 0 <= j < after.len() && entries_match(
                    #[trigger] after[i].entry@,
                    e@,
                ) && entries_match(#[trigger] after[j].entry@, e@) ==> i == j
        }),
{
    law_clipboard_change_keeps_invariant(h, e);
    let after = after_clipboard_change(h, e);
    let p = first_match(h, e@);
    lemma_first_match(h, e@, 0);
    let rest = if p >= 0 { h.remove(p) } else { h };
    let pinned = p >= 0 && h[p].pinned;
    let item = HistoryItem { entry: e, pinned };
    if p >= 0 {
        lemma_count_remove(h, p);
        lemma_pins_remove(h, p);
    }
    let pp = pinned_prefix_len(rest);
    lemma_prefix_le_count(rest);
    lemma_pins_insert_at_prefix(rest, item);
    lemma_count_insert(rest, pp, item);
    let ins = inserted_after_pins(rest, item);
    assert(ins[pp] == item);
    if ins.len() <= MAX_HISTORY {
        assert(after == ins);
        assert(after[pp] == item);
    } else {
        lemma_trimmed_one_over(ins);
        assert(after[pp] == item);
    }
    assert forall|i: int, j: int|
        0 <= i < after.len() && 0 <= j < after.len() && entries_match(
            #[trigger] after[i].entry@,
            e@,
        ) && entries_match(#[trigger] after[j].entry@, e@) implies i == j by {
        if i < j {
            lemma_entries_match_equivalence(after[i].entry@, e@, after[j].entry@);
            lemma_entries_match_equivalence(after[j].entry@, e@, e@);
            assert(!entries_match(after[i].entry@, after[j].entry@));
        } else if j < i {
            lemma_entries_match_equivalence(after[j].entry@, e@, after[i].entry@);
            lemma_entries_match_equivalence(after[i].entry@, e@, e@);
            assert(!entries_match(after[j].entry@, after[i].entry@));
        }
    }
}

/// With `MAX_PINNED` items pinned, toggling an unpinned item changes nothing.
pub proof fn law_toggle_pin_respects_limit(h: Seq<HistoryItem>, index: int)
    requires
        0 <= index < h.len(),
        !h[index].pinned,
        count_pinned(h) >= MAX_PINNED,
    ensures
        toggled(h, index) == h,
{
    lemma_count_remove(h, index);
}

// ---------------------------------------------------------------------------
// Laws of keyboard navigation
// ---------------------------------------------------------------------------

/// The shown indices are in increasing order and below `n`.
proof fn lemma_filtered_increasing(h: Seq<HistoryItem>, q: Seq<char>, n: int)
    requires
        0 <= n <= h.len() <= usize::MAX,
    ensures
        forall|i: int| 0 <= i < filtered_upto(h, q, n).len() ==> #[trigger] filtered_upto(h, q, n)[i] < n,
        forall|i: int, j: int|
            0 <= i < j < filtered_upto(h, q, n).len() ==> #[trigger] filtered_upto(h, q, n)[i]
                < #[trigger] filtered_upto(h, q, n)[j],
    decreases n,
{
    if n > 0 {
        lemma_filtered_increasing(h, q, n - 1);
        let r = filtered_upto(h, q, n - 1);
        let f = filtered_upto(h, q, n);
        if f != r {
            assert(f == r.push((n - 1) as usize));
            assert forall|i: int, j: int| 0 <= i < j < f.len() implies #[trigger] f[i] < #[trigger] f[j] by {
                assert(f[i] == r[i]);
                if j < r.len() {
                    assert(f[j] == r[j]);
                }
            }
            assert forall|i: int| 0 <= i < f.len() implies #[trigger] f[i] < n by {
                if i < r.len() {
                    assert(f[i] == r[i]);
                }
            }
        }
    }
}

/// The indices that a search shows are in increasing order and index the history.
pub proof fn law_filtered_in_order(h: Seq<HistoryItem>, query: Seq<char>)
    requires
        h.len() <= usize::MAX,
    ensures
        forall|i: int| 0 <= i < filtered(h, query).len() ==> #[trigger] filtered(h, query)[i] < h.len(),
        forall|i: int, j: int|
            0 <= i < j < filtered(h, query).len() ==> #[trigger] filtered(h, query)[i]
                < #[trigger] filtered(h, query)[j],
{
    lemma_filtered_increasing(h, unicode_lowercase(query), h.len() as int);
}

proof fn lemma_position_from(v: Seq<usize>, x: usize, i: int)
    requires
        0 <= i <= v.len(),
    ensures
        -1 <= position_from(v, x, i) < v.len(),
        position_from(v, x, i) >= 0 ==> i <= position_from(v, x, i) && v[position_from(v, x, i)] == x,
        position_from(v, x, i) < 0 ==> forall|k: int| i <= k < v.len() ==> v[k] != x,
    decreases v.len() - i,
{
    if i < v.len() && v[i] != x {
        lemma_position_from(v, x, i + 1);
    }
}

/// In a sequence without repeats, the position of `v[k]` is `k`.
proof fn lemma_position_of_element(v: Seq<usize>, k: int)
    requires
        0 <= k < v.len(),
        forall|i: int, j: int| 0 <= i < j < v.len() ==> #[trigger] v[i] < #[trigger] v[j],
    ensures
        position_from(v, v[k], 0) == k,
{
    lemma_position_from(v, v[k], 0);
    let p = position_from(v, v[k], 0);
    if p >= 0 && p != k {
        if p < k {
            assert(v[p] < v[k]);
        } else {
            assert(v[k] < v[p]);
        }
    }
}

/// Moving the keyboard selection down and then up comes back to the
/// hovered row, when that row is shown.
pub proof fn law_selection_down_then_up(s: AppView)
    requires
        s.history.len() <= usize::MAX,
        hovered_position(filtered(s.history, s.search_query), s.hovered_index) >= 0,
    ensures
        next(next(s, Message::MoveSelectionDown).0, Message::MoveSelectionUp).0.hovered_index
            == s.hovered_index,
{
    let v = filtered(s.history, s.search_query);
    law_filtered_in_order(s.history, s.search_query);
    let h = s.hovered_index->0;
    lemma_position_from(v, h, 0);
    let p = position_from(v, h, 0);
    let q = (p + 1) % (v.len() as int);
    if p + 1 < v.len() {
        vstd::arithmetic::div_mod::lemma_small_mod((p + 1) as nat, v.len());
    } else {
        vstd::arithmetic::div_mod::lemma_mod_self_0(v.len() as int);
    }
    assert(0 <= q < v.len());
    lemma_position_of_element(v, q);
    let n1 = v[q];
    assert(selection_below(v, s.hovered_index) == n1);
    let s1 = selected(s, n1);
    assert(next(s, Message::MoveSelectionDown).0 == s1);
    assert(filtered(s1.history, s1.search_query) == v);
    assert(hovered_position(v, s1.hovered_index) == q);
    if p + 1 < v.len() {
        assert(q == p + 1);
    } else {
        assert(q == 0);
    }
    assert(selection_above(v, s1.hovered_index) == h);
}

/// Moving the keyboard selection up and then down comes back to the
/// hovered row, when that row is shown.
pub proof fn law_selection_up_then_down(s: AppView)
    requires
        s.history.len() <= usize::MAX,
        hovered_position(filtered(s.history, s.search_query), s.hovered_index) >= 0,
    ensures
        next(next(s, Message::MoveSelectionUp).0, Message::MoveSelectionDown).0.hovered_index
            == s.hovered_index,
{
    let v = filtered(s.history, s.search_query);
    law_filtered_in_order(s.history, s.search_query);
    let h = s.hovered_index->0;
    lemma_position_from(v, h, 0);
    let p = position_from(v, h, 0);
    let q = if p > 0 { p - 1 } else { v.len() - 1 };
    if q + 1 < v.len() {
        vstd::arithmetic::div_mod::lemma_small_mod((q + 1) as nat, v.len());
    } else {
        vstd::arithmetic::div_mod::lemma_mod_self_0(v.len() as int);
    }
    lemma_position_of_element(v, q);
    let n1 = v[q];
    assert(selection_above(v, s.hovered_index) == n1);
    let s1 = selected(s, n1);
    assert(next(s, Message::MoveSelectionUp).0 == s1);
    assert(filtered(s1.history, s1.search_query) == v);
    assert(hovered_position(v, s1.hovered_index) == q);
    assert((q + 1) % (v.len() as int) == p);
    assert(selection_below(v, s1.hovered_index) == h);
}

/// Moving the keyboard selection lands on a row that the search shows,
/// which is an index of the history; with nothing shown nothing changes.
pub proof fn law_selection_lands_on_shown_row(s: AppView, up: bool)
    requires
        s.history.len() <= usize::MAX,
    ensures
        ({
            let m = if up { Message::MoveSelectionUp } else { Message::MoveSelectionDown };
            let v = filtered(s.history, s.search_query);
            let n = next(s, m).0.hovered_index;
            if v.len() == 0 {
                next(s, m) == (s, Action::Nothing)
            } else {
                &&& n is Some
                &&& v.contains(n->0)
                &&& n->0 < s.history.len()
            }
        }),
{
    let v = filtered(s.history, s.search_query);
    law_filtered_in_order(s.history, s.search_query);
    if v.len() > 0 {
        let p = hovered_position(v, s.hovered_index);
        if s.hovered_index is Some {
            lemma_position_from(v, s.hovered_index->0, 0);
        }
        if up {
            let k = if p > 0 { p - 1 } else { v.len() - 1 };
            assert(selection_above(v, s.hovered_index) == v[k]);
        } else {
            let k = if p >= 0 { (p + 1) % (v.len() as int) } else { 0 };
            if p >= 0 {
                if p + 1 < v.len() {
                    vstd::arithmetic::div_mod::lemma_small_mod((p + 1) as nat, v.len());
                } else {
                    vstd::arithmetic::div_mod::lemma_mod_self_0(v.len() as int);
                }
            }
            assert(selection_below(v, s.hovered_index) == v[k]);
        }
    }
}

/// On the hovered row, moving the focus right and then left restores it.
pub proof fn law_focus_right_then_left(s: AppView)
    requires
        s.keyboard_focus is Some,
        s.hovered_index == Some((s.keyboard_focus->0).0),
    ensures
        next(next(s, Message::MoveFocusRight).0, Message::MoveFocusLeft).0.keyboard_focus
            == s.keyboard_focus,
{
}

/// On the hovered row, moving the focus right three times goes round the
/// three parts of the row back to where it was.
pub proof fn law_focus_right_cycles(s: AppView)
    requires
        s.keyboard_focus is Some,
        s.hovered_index == Some((s.keyboard_focus->0).0),
    ensures
        next(
            next(next(s, Message::MoveFocusRight).0, Message::MoveFocusRight).0,
            Message::MoveFocusRight,
        ).0.keyboard_focus == s.keyboard_focus,
{
}

// ---------------------------------------------------------------------------
// Laws of the popup
// ---------------------------------------------------------------------------

/// Toggling the popup twice from closed opens it and closes it again.
pub proof fn law_toggle_popup_twice(s: AppView, first: u64, second: u64)
    requires
        s.popup is None,
    ensures
        next(s, Message::TogglePopup(first)).1 == Action::OpenPopup(first),
        next(next(s, Message::TogglePopup(first)).0, Message::TogglePopup(second)).1
            == Action::DestroyPopup(first),
        next(next(s, Message::TogglePopup(first)).0, Message::TogglePopup(second)).0.popup is None,
{
}

/// A close or focus loss of another window than the open popup changes nothing.
pub proof fn law_other_window_events_change_nothing(s: AppView, id: u64)
    requires
        s.popup != Some(id),
    ensures
        next(s, Message::PopupClosed(id)) == (s, Action::Nothing),
        next(s, Message::WindowUnfocused(id)) == (s, Action::Nothing),
{
}

// ---------------------------------------------------------------------------
// Laws of entries
// ---------------------------------------------------------------------------

/// Two entries have the same fingerprint exactly when they match.
pub proof fn law_fingerprint_identifies_entry(a: EntryView, b: EntryView)
    requires
        entry_wf(a),
        entry_wf(b),
    ensures
        fingerprint_of(a) == fingerprint_of(b) <==> entries_match(a, b),
{
}

// ---------------------------------------------------------------------------
// Laws of text
// ---------------------------------------------------------------------------

proof fn lemma_trim_start_avoids(x: Seq<char>, c: char)
    requires
        forall|k: int| 0 <= k < x.len() ==> x[k] != c,
    ensures
        forall|k: int| 0 <= k < trim_start(x).len() ==> trim_start(x)[k] != c,
        trim_start(x).len() <= x.len(),
    decreases x.len(),
{
    if x.len() > 0 && crate::text::is_whitespace(x[0]) {
        lemma_trim_start_avoids(x.drop_first(), c);
    }
}

proof fn lemma_trim_end_avoids(x: Seq<char>, c: char)
    requires
        forall|k: int| 0 <= k < x.len() ==> x[k] != c,
    ensures
        forall|k: int| 0 <= k < trim_end(x).len() ==> trim_end(x)[k] != c,
        trim_end(x).len() <= x.len(),
    decreases x.len(),
{
    if x.len() > 0 && crate::text::is_whitespace(x.last()) {
        lemma_trim_end_avoids(x.drop_last(), c);
    }
}

proof fn lemma_line_has_no_newline(s: Seq<char>, i: int)
    requires
        0 <= i <= s.len(),
    ensures
        i <= line_end(s, i) <= s.len(),
        forall|k: int| i <= k < line_end(s, i) ==> s[k] != '\n',
    decreases s.len() - i,
{
    if i < s.len() && s[i] != '\n' {
        lemma_line_has_no_newline(s, i + 1);
    }
}

proof fn lemma_first_line_has_no_newline(s: Seq<char>, i: int)
    requires
        0 <= i <= s.len(),
    ensures
        forall|k: int|
            0 <= k < first_nonblank_line_from(s, i).len() ==> first_nonblank_line_from(s, i)[k]
                != '\n',
    decreases s.len() - i,
{
    lemma_line_has_no_newline(s, i);
    let e = line_end(s, i);
    let seg = s.subrange(i, e);
    lemma_trim_start_avoids(seg, '\n');
    lemma_trim_end_avoids(trim_start(seg), '\n');
    if trim(seg).len() > 0 {
        assert(first_nonblank_line_from(s, i) == trim(seg));
    } else if e < s.len() {
        lemma_first_line_has_no_newline(s, e + 1);
        assert(first_nonblank_line_from(s, i) == first_nonblank_line_from(s, e + 1));
    } else {
        assert(first_nonblank_line_from(s, i).len() == 0);
    }
}

/// The summary of a text is one line (it holds no line break) of at most
/// `SUMMARY_MAX_CHARS` characters.
pub proof fn law_summary_is_one_short_line(s: Seq<char>)
    ensures
        one_line_summary(s).len() <= SUMMARY_MAX_CHARS,
        forall|k: int| 0 <= k < one_line_summary(s).len() ==> one_line_summary(s)[k] != '\n',
{
    lemma_first_line_has_no_newline(s, 0);
    let l = first_nonblank_line_from(s, 0);
    if l.len() > SUMMARY_MAX_CHARS {
        let r = l.take(SUMMARY_MAX_CHARS - 1).push('\u{2026}');
        assert forall|k: int| 0 <= k < r.len() implies r[k] != '\n' by {
            if k < SUMMARY_MAX_CHARS - 1 {
                assert(r[k] == l[k]);
            }
        }
    }
}

/// Bytes without `%` decode to themselves.
pub proof fn law_percent_free_bytes_decode_to_themselves(b: Seq<u8>)
    requires
        forall|k: int| 0 <= k < b.len() ==> b[k] != 0x25,
    ensures
        percent_decoded(b) == Some(b),
    decreases b.len(),
{
    if b.len() > 0 {
        law_percent_free_bytes_decode_to_themselves(b.skip(1));
        assert(seq![b[0]] + b.skip(1) =~= b);
    }
}

/// An ASCII path without `%` decodes to itself.
pub proof fn law_plain_ascii_path_decodes_to_itself(s: Seq<char>)
    requires
        is_ascii_chars(s),
        forall|k: int| 0 <= k < s.len() ==> s[k] != '%',
    ensures
        decoded_path(s) == Some(s),
{
    vstd::utf8::is_ascii_chars_encode_utf8(s);
    let b = encode_utf8(s);
    assert forall|k: int| 0 <= k < b.len() implies b[k] != 0x25 by {
        assert(s[k] as u8 == b[k]);
        assert('\0' <= s[k] <= '\u{7f}');
        assert(s[k] != '%');
    }
    law_percent_free_bytes_decode_to_themselves(b);
    vstd::utf8::encode_utf8_valid_utf8(s);
    vstd::utf8::encode_utf8_decode_utf8(s);
}

// ---------------------------------------------------------------------------
// Laws of repeats, trivial texts, the toggle signal and the keys
// ---------------------------------------------------------------------------

/// Copying again the content that is already at the front of the history
/// changes nothing, whatever the pins: neither the history nor any other part
/// of the state, and no action follows.
pub proof fn law_repeat_of_front_changes_nothing(s: AppView, e: ClipboardEntry)
    requires
        s.history.len() > 0,
        entries_match(s.history[0].entry@, e@),
    ensures
        after_clipboard_change(s.history, e) == s.history,
        next(s, Message::ClipboardChanged(e)) == (s, Action::Nothing),
{
}

/// Whether `c` is an ASCII digit `0` to `9` or one of the separators
/// `, . : ; / \ _ -` and space.
pub open spec fn digit_or_separator(c: char) -> bool {
    ||| '0' <= c <= '9'
    ||| c == ','
    ||| c == '.'
    ||| c == ':'
    ||| c == ';'
    ||| c == '/'
    ||| c == '\\'
    ||| c == '_'
    ||| c == '-'
    ||| c == ' '
}

/// A copied text is ignored exactly when, once trimmed, it is empty or has
/// at most 8 characters, each a digit or a separator: times like `10:30`,
/// years like `2020` and dates like `1.2.24` are ignored; longer texts and
/// texts with any other character are kept.
pub proof fn law_trivial_texts_are_ignored(text: Seq<char>)
    ensures
        trim(text).len() == 0 ==> ignored_text(text),
        (trim(text).len() <= 8 && forall|i: int|
            0 <= i < trim(text).len() ==> digit_or_separator(#[trigger] trim(text)[i]))
            ==> ignored_text(text),
        trim(text).len() > 8 ==> !ignored_text(text),
        (exists|i: int| 0 <= i < trim(text).len() && !digit_or_separator(#[trigger] trim(text)[i]))
            ==> !ignored_text(text),
{
}

/// With a window open, the toggle signal closes it exactly as the panel
/// button does: the popup is gone, the search is cleared, and the action
/// destroys that window (a layer surface or a popup, as it was opened).
pub proof fn law_toggle_signal_closes_open_window(s: AppView, id: u64, other: u64)
    requires
        s.popup is Some,
    ensures
        next(s, Message::ToggleViaIpc(id)) == next(s, Message::TogglePopup(other)),
        next(s, Message::ToggleViaIpc(id)).0.popup is None,
        next(s, Message::ToggleViaIpc(id)).0.search_query.len() == 0,
        s.popup_is_layer_surface ==> next(s, Message::ToggleViaIpc(id)).1
            == (Action::DestroyLayerSurface { id: s.popup->0, forget_viewport: false }),
        !s.popup_is_layer_surface ==> (next(s, Message::ToggleViaIpc(id)).1
            == Action::DestroyPopup(s.popup->0)),
{
}

/// Sending the toggle signal twice from closed opens a layer surface and then
/// destroys that same surface, leaving no window open.
pub proof fn law_toggle_signal_twice(s: AppView, first: u64, second: u64)
    requires
        s.popup is None,
    ensures
        next(s, Message::ToggleViaIpc(first)).1 == Action::OpenLayerSurface(first),
        next(next(s, Message::ToggleViaIpc(first)).0, Message::ToggleViaIpc(second)).1
            == (Action::DestroyLayerSurface { id: first, forget_viewport: false }),
        (next(next(s, Message::ToggleViaIpc(first)).0, Message::ToggleViaIpc(second)).0.popup
            is None),
{
}

/// The arrow keys and Enter give the commands of the letter keys that stand
/// for them (Up `k`, Down `j`, Left `h`, Right `l`, Enter a line break), in
/// either case; Escape toggles the popup; different named keys give different
/// commands.
pub proof fn law_named_keys_agree_with_letters(a: NavKey, b: NavKey)
    ensures
        command_of_char('k') == Some(command_of_named_key(NavKey::ArrowUp)),
        command_of_char('j') == Some(command_of_named_key(NavKey::ArrowDown)),
        command_of_char('h') == Some(command_of_named_key(NavKey::ArrowLeft)),
        command_of_char('l') == Some(command_of_named_key(NavKey::ArrowRight)),
        command_of_char('\n') == Some(command_of_named_key(NavKey::Enter)),
        command_of_char('\r') == Some(command_of_named_key(NavKey::Enter)),
        command_of_char('K') == command_of_char('k'),
        command_of_char('J') == command_of_char('j'),
        command_of_char('H') == command_of_char('h'),
        command_of_char('L') == command_of_char('l'),
        command_of_named_key(NavKey::Escape) == KeyCommand::TogglePopup,
        a != b ==> command_of_named_key(a) != command_of_named_key(b),
{
}

/// Moving the keyboard selection up or down, when any row is shown, selects
/// a row, puts the keyboard focus on its entry and asks to scroll exactly that
/// row into view.
pub proof fn law_selection_move_scrolls_to_row(s: AppView, up: bool)
    requires
        filtered(s.history, s.search_query).len() > 0,
    ensures
        ({
            let m = if up { Message::MoveSelectionUp } else { Message::MoveSelectionDown };
            let r = next(s, m);
            &&& r.0.hovered_index is Some
            &&& r.0.keyboard_focus == Some((r.0.hovered_index->0, FocusPart::Entry))
            &&& r.1 == Action::ScrollIntoView(r.0.hovered_index->0)
        }),
{
}

/// Moving the keyboard selection goes one shown row at a time, wrapping
/// round: down from the shown row at position `p` lands on position `p + 1`
/// (the first after the last), up on position `p - 1` (the last before the
/// first); with no shown row hovered, down selects the first shown row and up
/// the last. With two or more rows shown, the selection always changes.
pub proof fn law_selection_steps_one_row(s: AppView)
    requires
        s.history.len() <= usize::MAX,
        filtered(s.history, s.search_query).len() > 0,
    ensures
        ({
            let v = filtered(s.history, s.search_query);
            let len = v.len() as int;
            let p = hovered_position(v, s.hovered_index);
            let down = next(s, Message::MoveSelectionDown).0.hovered_index;
            let up = next(s, Message::MoveSelectionUp).0.hovered_index;
            &&& down is Some && up is Some
            &&& p >= 0 ==> hovered_position(v, down) == (if p + 1 < len { p + 1 } else { 0 })
            &&& p >= 0 ==> hovered_position(v, up) == (if p > 0 { p - 1 } else { len - 1 })
            &&& p < 0 ==> hovered_position(v, down) == 0
            &&& p < 0 ==> hovered_position(v, up) == len - 1
            &&& (p >= 0 && len >= 2) ==> down != s.hovered_index && up != s.hovered_index
        }),
{
    let v = filtered(s.history, s.search_query);
    let len = v.len() as int;
    law_filtered_in_order(s.history, s.search_query);
    let p = hovered_position(v, s.hovered_index);
    if s.hovered_index is Some {
        lemma_position_from(v, s.hovered_index->0, 0);
    }
    let kd = if p >= 0 { if p + 1 < len { p + 1 } else { 0 } } else { 0 };
    let ku = if p > 0 { p - 1 } else { len - 1 };
    if p >= 0 {
        if p + 1 < len {
            vstd::arithmetic::div_mod::lemma_small_mod((p + 1) as nat, v.len());
        } else {
            vstd::arithmetic::div_mod::lemma_mod_self_0(len);
        }
    }
    assert(selection_below(v, s.hovered_index) == v[kd]);
    assert(selection_above(v, s.hovered_index) == v[ku]);
    lemma_position_of_element(v, kd);
    lemma_position_of_element(v, ku);
    if p >= 0 && len >= 2 {
        assert(v[kd] != v[p]) by {
            if kd < p {
                assert(v[kd] < v[p]);
            } else {
                assert(v[p] < v[kd]);
            }
        }
        assert(v[ku] != v[p]) by {
            if ku < p {
                assert(v[ku] < v[p]);
            } else {
                assert(v[p] < v[ku]);
            }
        }
    }
}

/// When the open window itself goes away, the state forgets it: a close of
/// the open popup or layer surface leaves no window, no search and no hovered
/// row, and only the viewport is forgotten; a layer surface that loses the
/// focus is destroyed in the same way; an ordinary popup that loses the focus
/// stays open.
pub proof fn law_own_window_going_away(s: AppView, id: u64)
    requires
        s.popup == Some(id),
    ensures
        next(s, Message::PopupClosed(id)).1 == Action::ForgetViewport,
        next(s, Message::PopupClosed(id)).0.popup is None,
        next(s, Message::PopupClosed(id)).0.search_query.len() == 0,
        next(s, Message::PopupClosed(id)).0.hovered_index is None,
        next(s, Message::PopupClosed(id)).0.history == s.history,
        s.popup_is_layer_surface ==> (next(s, Message::WindowUnfocused(id)).1
            == Action::DestroyLayerSurface { id: id, forget_viewport: true }),
        s.popup_is_layer_surface ==> (next(s, Message::WindowUnfocused(id)).0.popup is None),
        !s.popup_is_layer_surface ==> (next(s, Message::WindowUnfocused(id)) == (s, Action::Nothing)),
{
}

} // verus!
