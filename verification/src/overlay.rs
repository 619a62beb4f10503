//! Keys in the overlays: moving the selection of a list overlay, editing its query,
//! and what each key does in each overlay.
use vstd::prelude::*;
use crate::action_discovery::{overlay_text_input, ActionDiscoveryModel, OverlayTextInput};
use crate::keys::{KeyCodeInput, KeyInput};
use crate::panes::Overlay;
use crate::text::{chars_of, substring};

verus! {

/// Where the selection of a list of `max` entries goes from `index` when it moves by
/// `delta`: up one (not past the top) for -1, down one (not past the last entry) for
/// 1; other steps do not move it. `None` when it stays put.
pub open spec fn moved_selection(index: usize, max: usize, delta: isize) -> Option<usize> {
    if delta == -1 {
        if index == 0 {
            None
        } else {
            Some((index - 1) as usize)
        }
    } else if delta == 1 {
        if index + 1 >= max {
            None
        } else {
            Some((index + 1) as usize)
        }
    } else {
        None
    }
}

/// Moves the selection of a list of `max` entries by `delta`; answers whether it
/// moved.
pub fn move_overlay_selection_index(index: &mut usize, max: usize, delta: isize) -> (moved: bool)
    ensures
        moved == moved_selection(*old(index), max, delta) is Some,
        *final(index) == match moved_selection(*old(index), max, delta) {
            Some(i) => i,
            None => *old(index),
        },
{
    if delta == -1 {
        if *index == 0 {
            return false;
        }
        *index = *index - 1;
        true
    } else if delta == 1 {
        if max == 0 || *index >= max - 1 {
            return false;
        }
        *index = *index + 1;
        true
    } else {
        false
    }
}

/// The query after `Backspace`: with `Control` held, where that clears the query, a
/// non-empty query is cleared; otherwise its last character is removed. `None` when
/// nothing changes.
pub open spec fn query_after_backspace(query: Seq<char>, control: bool, clear_with_control: bool) -> Option<
    Seq<char>,
> {
    if query.len() == 0 {
        None
    } else if control && clear_with_control {
        Some(seq![])
    } else {
        Some(query.drop_last())
    }
}

/// Applies `Backspace` to an overlay's query; answers whether the query changed.
pub fn apply_text_overlay_backspace(query: &mut String, key: &KeyInput, clear_with_control: bool) -> (changed: bool)
    ensures
        changed == query_after_backspace(old(query)@, key.modifiers.control, clear_with_control) is Some,
        final(query)@ == match query_after_backspace(old(query)@, key.modifiers.control, clear_with_control) {
            Some(q) => q,
            None => old(query)@,
        },
{
    let c = chars_of(query.as_str());
    if c.len() == 0 {
        return false;
    }
    if key.modifiers.control && clear_with_control {
        *query = String::new();
        return true;
    }
    *query = substring(&c, 0, c.len() - 1);
    assert(c@.subrange(0, c.len() - 1) =~= c@.drop_last());
    true
}

/// What a key in an overlay asks the workbench to do.
#[derive(Debug, Clone, Copy, PartialEq, Eq, Structural)]
pub enum OverlayKeyOutcome {
    /// The overlay does not take the key; the workbench handles it.
    NotHandled,
    /// The overlay took the key and nothing else is to be done.
    Handled,
    /// Close the overlay.
    Close,
    /// Close the new-thread prompt.
    CloseNewThread,
    /// The selection moved; the overlay is to be redrawn.
    SelectionMoved,
    /// Act on the selected entry.
    Confirm,
    /// The query changed; the matches are to be recomputed.
    QueryChanged,
    /// Select the previous model.
    ModelUp,
    /// Select the next model.
    ModelDown,
    /// Switch to the selected model.
    ModelConfirm,
}

/// The query and selection of an overlay that takes typed text.
#[derive(Debug, Clone)]
pub struct TextOverlayState {
    pub query: String,
    pub selected_index: usize,
}

/// What a key does in an overlay that takes typed text, with the query, the selection
/// and the number of matches: the outcome, the query after, the selection after.
pub open spec fn text_overlay_step(
    closes_new_thread: bool,
    clear_with_control: bool,
    key: KeyInput,
    query: Seq<char>,
    selected: usize,
    matches: usize,
) -> (OverlayKeyOutcome, Seq<char>, usize) {
    match overlay_text_input(key) {
        OverlayTextInput::Close => (
            if closes_new_thread {
                OverlayKeyOutcome::CloseNewThread
            } else {
                OverlayKeyOutcome::Close
            },
            query,
            selected,
        ),
        OverlayTextInput::MoveUp => match moved_selection(selected, matches, -1isize) {
            Some(i) => (OverlayKeyOutcome::SelectionMoved, query, i),
            None => (OverlayKeyOutcome::Handled, query, selected),
        },
        OverlayTextInput::MoveDown => match moved_selection(selected, matches, 1) {
            Some(i) => (OverlayKeyOutcome::SelectionMoved, query, i),
            None => (OverlayKeyOutcome::Handled, query, selected),
        },
        OverlayTextInput::Confirm => (OverlayKeyOutcome::Confirm, query, selected),
        OverlayTextInput::Backspace => match query_after_backspace(
            query,
            key.modifiers.control,
            clear_with_control,
        ) {
            Some(q) => (OverlayKeyOutcome::QueryChanged, q, selected),
            None => (OverlayKeyOutcome::Handled, query, selected),
        },
        OverlayTextInput::InsertChar(c) => (OverlayKeyOutcome::QueryChanged, query.push(c), selected),
        OverlayTextInput::Ignore => (OverlayKeyOutcome::Handled, query, selected),
    }
}

/// What a key does in `overlay`, given the query, selection and number of matches of
/// the overlay when it takes typed text. The help closes on `Esc` or `?` and takes
/// every key; the explorer closes on `Esc` or `Ctrl+b` and takes no other key; the
/// model picker moves with the arrows or `k`/`j`, switches on `Enter`, closes on `Esc`;
/// the quick-open, new-thread, slash-command and action decks edit their query and
/// selection; with no overlay nothing is taken.
pub open spec fn overlay_key_step(
    overlay: Overlay,
    key: KeyInput,
    query: Seq<char>,
    selected: usize,
    matches: usize,
) -> (OverlayKeyOutcome, Seq<char>, usize) {
    match overlay {
        Overlay::Closed => (OverlayKeyOutcome::NotHandled, query, selected),
        Overlay::Help => if key.code == KeyCodeInput::Esc || key.code == KeyCodeInput::Char('?') {
            (OverlayKeyOutcome::Close, query, selected)
        } else {
            (OverlayKeyOutcome::Handled, query, selected)
        },
        Overlay::Explorer => if key.code == KeyCodeInput::Esc || (key.code == KeyCodeInput::Char('b')
            && key.modifiers.control) {
            (OverlayKeyOutcome::Close, query, selected)
        } else {
            (OverlayKeyOutcome::NotHandled, query, selected)
        },
        Overlay::ModelPicker => if key.code == KeyCodeInput::Up || key.code == KeyCodeInput::Char('k') {
            (OverlayKeyOutcome::ModelUp, query, selected)
        } else if key.code == KeyCodeInput::Down || key.code == KeyCodeInput::Char('j') {
            (OverlayKeyOutcome::ModelDown, query, selected)
        } else if key.code == KeyCodeInput::Enter {
            (OverlayKeyOutcome::ModelConfirm, query, selected)
        } else if key.code == KeyCodeInput::Esc {
            (OverlayKeyOutcome::Close, query, selected)
        } else {
            (OverlayKeyOutcome::NotHandled, query, selected)
        },
        Overlay::QuickOpen => text_overlay_step(false, false, key, query, selected, matches),
        Overlay::NewThreadPrompt => text_overlay_step(true, true, key, query, selected, matches),
        Overlay::SlashCommandDeck => text_overlay_step(false, false, key, query, selected, matches),
        Overlay::ActionDeck => text_overlay_step(false, false, key, query, selected, matches),
    }
}

/// Handles a key in `overlay`: updates the query and selection of `state` (for an
/// overlay that takes typed text, whose list has `matches` entries) and answers what
/// the workbench is to do.
pub fn handle_overlay_key_event(
    overlay: Overlay,
    key: &KeyInput,
    state: &mut TextOverlayState,
    matches: usize,
) -> (r: OverlayKeyOutcome)
    ensures
        (r, final(state).query@, final(state).selected_index) == overlay_key_step(
            overlay,
            *key,
            old(state).query@,
            old(state).selected_index,
            matches,
        ),
{
    match overlay {
        Overlay::Closed => OverlayKeyOutcome::NotHandled,
        Overlay::Help => {
            if key.code == KeyCodeInput::Esc || key.code == KeyCodeInput::Char('?') {
                OverlayKeyOutcome::Close
            } else {
                OverlayKeyOutcome::Handled
            }
        },
        Overlay::Explorer => {
            if key.code == KeyCodeInput::Esc || (key.code == KeyCodeInput::Char('b')
                && key.modifiers.control) {
                OverlayKeyOutcome::Close
            } else {
                OverlayKeyOutcome::NotHandled
            }
        },
        Overlay::ModelPicker => {
            if key.code == KeyCodeInput::Up || key.code == KeyCodeInput::Char('k') {
                OverlayKeyOutcome::ModelUp
            } else if key.code == KeyCodeInput::Down || key.code == KeyCodeInput::Char('j') {
                OverlayKeyOutcome::ModelDown
            } else if key.code == KeyCodeInput::Enter {
                OverlayKeyOutcome::ModelConfirm
            } else if key.code == KeyCodeInput::Esc {
                OverlayKeyOutcome::Close
            } else {
                OverlayKeyOutcome::NotHandled
            }
        },
        Overlay::QuickOpen => text_overlay_key(false, false, key, state, matches),
        Overlay::NewThreadPrompt => text_overlay_key(true, true, key, state, matches),
        Overlay::SlashCommandDeck => text_overlay_key(false, false, key, state, matches),
        Overlay::ActionDeck => text_overlay_key(false, false, key, state, matches),
    }
}

/// Handles a key in an overlay that takes typed text.
fn text_overlay_key(
    closes_new_thread: bool,
    clear_with_control: bool,
    key: &KeyInput,
    state: &mut TextOverlayState,
    matches: usize,
) -> (r: OverlayKeyOutcome)
    ensures
        (r, final(state).query@, final(state).selected_index) == text_overlay_step(
            closes_new_thread,
            clear_with_control,
            *key,
            old(state).query@,
            old(state).selected_index,
            matches,
        ),
{
    match ActionDiscoveryModel::parse_text_overlay_input(key) {
        OverlayTextInput::Close => if closes_new_thread {
            OverlayKeyOutcome::CloseNewThread
        } else {
            OverlayKeyOutcome::Close
        },
        OverlayTextInput::MoveUp => {
            if move_overlay_selection_index(&mut state.selected_index, matches, -1) {
                OverlayKeyOutcome::SelectionMoved
            } else {
                OverlayKeyOutcome::Handled
            }
        },
        OverlayTextInput::MoveDown => {
            if move_overlay_selection_index(&mut state.selected_index, matches, 1) {
                OverlayKeyOutcome::SelectionMoved
            } else {
                OverlayKeyOutcome::Handled
            }
        },
        OverlayTextInput::Confirm => OverlayKeyOutcome::Confirm,
        OverlayTextInput::Backspace => {
            if apply_text_overlay_backspace(&mut state.query, key, clear_with_control) {
                OverlayKeyOutcome::QueryChanged
            } else {
                OverlayKeyOutcome::Handled
            }
        },
        OverlayTextInput::InsertChar(c) => {
            let mut q = chars_of(state.query.as_str());
            q.push(c);
            state.query = crate::text::string_of(q.as_slice());
            OverlayKeyOutcome::QueryChanged
        },
        OverlayTextInput::Ignore => OverlayKeyOutcome::Handled,
    }
}

/// Moving down and then up in a list comes back to the entry one started from, when
/// the move down was possible.
pub proof fn lemma_selection_down_up(index: usize, max: usize)
    requires
        moved_selection(index, max, 1) is Some,
    ensures
        moved_selection(moved_selection(index, max, 1)->0, max, -1isize) == Some(index),
{
}

/// A moved selection stays within the list.
pub proof fn lemma_selection_stays_in_list(index: usize, max: usize, delta: isize)
    requires
        index < max,
    ensures
        moved_selection(index, max, delta) matches Some(i) ==> i < max,
{
}

/// Typing a character and deleting it with `Backspace` (without `Control`) leaves the
/// query as it was.
pub proof fn lemma_type_then_backspace(query: Seq<char>, c: char, clear_with_control: bool)
    ensures
        query_after_backspace(query.push(c), false, clear_with_control) == Some(query),
{
    assert(query.push(c).drop_last() =~= query);
}

} // verus!
