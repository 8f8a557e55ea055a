use vstd::prelude::*;

use crate::clipboard::model::{fingerprint_of, ClipboardEntry, ClipboardFingerprint};

verus! {

/// The navigation keys the popup listens to.
#[derive(Debug, Clone, Copy, PartialEq, Eq, Structural)]
pub enum NavKey {
    ArrowUp,
    ArrowDown,
    ArrowLeft,
    ArrowRight,
    Enter,
    Escape,
}

/// What a key press in the open popup asks for.
#[derive(Debug, Clone, Copy, PartialEq, Eq, Structural)]
pub enum KeyCommand {
    SelectionUp,
    SelectionDown,
    FocusLeft,
    FocusRight,
    Activate,
    TogglePopup,
}

/// The command of a named key: arrows move the selection and the focus,
/// Enter activates, Escape toggles the popup.
pub open spec fn command_of_named_key(k: NavKey) -> KeyCommand {
    match k {
        NavKey::ArrowUp => KeyCommand::SelectionUp,
        NavKey::ArrowDown => KeyCommand::SelectionDown,
        NavKey::ArrowLeft => KeyCommand::FocusLeft,
        NavKey::ArrowRight => KeyCommand::FocusRight,
        NavKey::Enter => KeyCommand::Activate,
        NavKey::Escape => KeyCommand::TogglePopup,
    }
}

/// The command of a character key (its latin form): `j`/`k` move the
/// selection down/up, `h`/`l` move the focus left/right, in either case;
/// a line break activates.
pub open spec fn command_of_char(c: char) -> Option<KeyCommand> {
    if c == 'j' || c == 'J' {
        Some(KeyCommand::SelectionDown)
    } else if c == 'k' || c == 'K' {
        Some(KeyCommand::SelectionUp)
    } else if c == 'h' || c == 'H' {
        Some(KeyCommand::FocusLeft)
    } else if c == 'l' || c == 'L' {
        Some(KeyCommand::FocusRight)
    } else if c == '\n' || c == '\r' {
        Some(KeyCommand::Activate)
    } else {
        None
    }
}

/// The command of a named key.
pub fn key_command_for_named(k: NavKey) -> (r: KeyCommand)
    ensures
        r == command_of_named_key(k),
{
    match k {
        NavKey::ArrowUp => KeyCommand::SelectionUp,
        NavKey::ArrowDown => KeyCommand::SelectionDown,
        NavKey::ArrowLeft => KeyCommand::FocusLeft,
        NavKey::ArrowRight => KeyCommand::FocusRight,
        NavKey::Enter => KeyCommand::Activate,
        NavKey::Escape => KeyCommand::TogglePopup,
    }
}

/// The command of a character key, if any.
pub fn key_command_for_char(c: char) -> (r: Option<KeyCommand>)
    ensures
        r == command_of_char(c),
{
    if c == 'j' || c == 'J' {
        Some(KeyCommand::SelectionDown)
    } else if c == 'k' || c == 'K' {
        Some(KeyCommand::SelectionUp)
    } else if c == 'h' || c == 'H' {
        Some(KeyCommand::FocusLeft)
    } else if c == 'l' || c == 'L' {
        Some(KeyCommand::FocusRight)
    } else if c == '\n' || c == '\r' {
        Some(KeyCommand::Activate)
    } else {
        None
    }
}

/// One poll of the clipboard: an entry whose fingerprint equals the last one
/// seen is not reported; another one is reported and becomes the last one
/// seen. Returns the new last fingerprint and whether to report the entry.
pub fn clipboard_poll_step(last_seen: Option<ClipboardFingerprint>, next: &ClipboardEntry) -> (r: (
    Option<ClipboardFingerprint>,
    bool,
))
    ensures
        ({
            let same = match last_seen {
                Some(fp) => fp@ == fingerprint_of(next@),
                None => false,
            };
            &&& r.1 == !same
            &&& same ==> r.0 == last_seen
            &&& !same ==> (r.0 matches Some(fp) && fp@ == fingerprint_of(next@))
        }),
{
    let fp = next.fingerprint();
    let same = match &last_seen {
        Some(seen) => *seen == fp,
        None => false,
    };
    if same {
        (last_seen, false)
    } else {
        (Some(fp), true)
    }
}

} // verus!
