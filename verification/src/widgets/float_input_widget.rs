use vstd::prelude::*;

verus! {

/// Result of feeding one key to the number entry box: a finished value, no
/// value yet, or the entry abandoned.
#[derive(Debug, PartialEq, Eq, Structural)]
pub enum FloatInput<T> {
    Value(T),
    Pending,
    Abort,
}

/// The keys the number entry box tells apart.
#[derive(Debug, Clone, Copy, PartialEq, Eq, Structural)]
pub enum EntryKey {
    Esc,
    Enter,
    CtrlM,
    Other,
}

/// What the number entry box does with a key.
#[derive(Debug, Clone, Copy, PartialEq, Eq, Structural)]
pub enum EntryAction {
    /// Give up the entry.
    Abort,
    /// Take the typed number and clear the box.
    Accept,
    /// Nothing.
    Ignore,
    /// Pass the key to the text and check the text again.
    Edit,
}

/// Escape abandons the entry; Enter takes the number when the text is a
/// valid number and is ignored otherwise, as is Ctrl-M; any other key edits
/// the text.
pub open spec fn entry_action_of(key: EntryKey, is_valid: bool) -> EntryAction {
    match key {
        EntryKey::Esc => EntryAction::Abort,
        EntryKey::Enter => if is_valid {
            EntryAction::Accept
        } else {
            EntryAction::Ignore
        },
        EntryKey::CtrlM => EntryAction::Ignore,
        EntryKey::Other => EntryAction::Edit,
    }
}

/// Decides what the number entry box does with `key` (see
/// [`entry_action_of`]).
pub fn entry_action(key: EntryKey, is_valid: bool) -> (r: EntryAction)
    ensures
        r == entry_action_of(key, is_valid),
{
    match key {
        EntryKey::Esc => EntryAction::Abort,
        EntryKey::Enter => if is_valid {
            EntryAction::Accept
        } else {
            EntryAction::Ignore
        },
        EntryKey::CtrlM => EntryAction::Ignore,
        EntryKey::Other => EntryAction::Edit,
    }
}

/// Whether the box holds a valid number after it handled a key with
/// `action`: an edit that changed the text takes the verdict on the new text
/// (`text_parses`); anything else leaves the flag as it was, taking a number
/// included, though the box is then cleared.
pub open spec fn validity_after_of(
    action: EntryAction,
    is_valid: bool,
    text_changed: bool,
    text_parses: bool,
) -> bool {
    if action == EntryAction::Edit && text_changed {
        text_parses
    } else {
        is_valid
    }
}

/// The box's validity flag after a key (see [`validity_after_of`]).
pub fn validity_after(action: EntryAction, is_valid: bool, text_changed: bool, text_parses: bool) -> (r:
    bool)
    ensures
        r == validity_after_of(action, is_valid, text_changed, text_parses),
{
    match action {
        EntryAction::Edit => if text_changed {
            text_parses
        } else {
            is_valid
        },
        _ => is_valid,
    }
}

} // verus!
